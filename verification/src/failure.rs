//! What can go wrong, and how the tool says so.

use vstd::prelude::*;

use crate::files::{proof_name, public_name};
use crate::params::SrsFormat;
use crate::text::{around_number, decimal, join};

verus! {

/// Why a step of the tool failed.
pub enum Failure {
    /// The file with the parameters could not be opened.
    ReadParams { format: SrsFormat, path: String },
    /// The file with the parameters has an extension that is not known.
    ParamsExtension,
    /// The file with the parameters has no extension.
    ParamsPath,
    /// The parameters could not be read.
    MalformedParams,
    /// A directory could not be made.
    Directory { path: String },
    /// A file could not be made.
    CreateFile { path: String },
    /// A file could not be opened.
    OpenFile { path: String },
    /// A file could not be written.
    WriteFile { path: String },
    /// The bytecode of the verifier could not be written.
    WriteVerifier { path: String },
    /// There is no verification key.
    MissingKey { path: String },
    /// The verification key could not be read.
    MalformedKey,
    /// There is no proof of that number.
    MissingProof { number: u64, path: String },
    /// The proof of that number could not be read.
    MalformedProof { number: u64 },
    /// There are no public signals of that number.
    MissingPublic { number: u64, path: String },
    /// The public signals of that number could not be read.
    MalformedPublic { number: u64 },
    /// The mock prover could not run.
    MockProver,
    /// The call of the verifier failed.
    EvmCall,
    /// The verification of the proof in the EVM did not go through.
    EvmVerification,
    /// A failure that carries its own message.
    Outside { message: String },
}

impl Failure {
    /// What the tool says of the failure.
    pub open spec fn text(self) -> Seq<char> {
        match self {
            Failure::ReadParams { format: SrsFormat::SnarkJs, path } =>
                "Failed to read .ptau file "@ + path@,
            Failure::ReadParams { format: SrsFormat::Pse, path } =>
                "Failed to read .srs file "@ + path@,
            Failure::ParamsExtension =>
                "Invalid file extension. Only .ptau or .srs files allowed for params"@,
            Failure::ParamsPath => "Invalid file path for params"@,
            Failure::MalformedParams => "Malformed params file"@,
            Failure::Directory { path } => "Failed to locate directory at "@ + path@,
            Failure::CreateFile { path } => "Failed to create new file at "@ + path@,
            Failure::OpenFile { path } => "Failed to open file at "@ + path@,
            Failure::WriteFile { path } => "Failed to write to file at "@ + path@,
            Failure::WriteVerifier { path } => "Failed to write evm verifier to "@ + path@,
            Failure::MissingKey { path } => "Failed to locate verification key at "@ + path@,
            Failure::MalformedKey => "Malformed verification key"@,
            Failure::MissingProof { number, path } =>
                "Failed to locate proof"@ + decimal(number as nat) + ".json at "@ + path@,
            Failure::MalformedProof { number } =>
                "Malformed proof"@ + decimal(number as nat) + ".json"@,
            Failure::MissingPublic { number, path } =>
                "Failed to locate public"@ + decimal(number as nat) + ".json at "@ + path@,
            Failure::MalformedPublic { number } =>
                "Malformed public"@ + decimal(number as nat) + ".json"@,
            Failure::MockProver => "Mock prover failed"@,
            Failure::EvmCall => "EVM verification failed!"@,
            Failure::EvmVerification => "Evm verification failed"@,
            Failure::Outside { message } => message@,
        }
    }

    /// What the tool says of the failure.
    pub fn message(&self) -> (message: String)
        ensures
            message@ == self.text(),
    {
        match self {
            Failure::ReadParams { format, path } => match format {
                SrsFormat::SnarkJs => join("Failed to read .ptau file ", path.as_str()),
                SrsFormat::Pse => join("Failed to read .srs file ", path.as_str()),
            },
            Failure::ParamsExtension =>
                "Invalid file extension. Only .ptau or .srs files allowed for params".to_owned(),
            Failure::ParamsPath => "Invalid file path for params".to_owned(),
            Failure::MalformedParams => "Malformed params file".to_owned(),
            Failure::Directory { path } => join("Failed to locate directory at ", path.as_str()),
            Failure::CreateFile { path } => join("Failed to create new file at ", path.as_str()),
            Failure::OpenFile { path } => join("Failed to open file at ", path.as_str()),
            Failure::WriteFile { path } => join("Failed to write to file at ", path.as_str()),
            Failure::WriteVerifier { path } =>
                join("Failed to write evm verifier to ", path.as_str()),
            Failure::MissingKey { path } =>
                join("Failed to locate verification key at ", path.as_str()),
            Failure::MalformedKey => "Malformed verification key".to_owned(),
            Failure::MissingProof { number, path } => join(
                around_number("Failed to locate proof", *number, ".json at ").as_str(),
                path.as_str(),
            ),
            Failure::MalformedProof { number } =>
                around_number("Malformed proof", *number, ".json"),
            Failure::MissingPublic { number, path } => join(
                around_number("Failed to locate public", *number, ".json at ").as_str(),
                path.as_str(),
            ),
            Failure::MalformedPublic { number } =>
                around_number("Malformed public", *number, ".json"),
            Failure::MockProver => "Mock prover failed".to_owned(),
            Failure::EvmCall => "EVM verification failed!".to_owned(),
            Failure::EvmVerification => "Evm verification failed".to_owned(),
            Failure::Outside { message } => message.clone(),
        }
    }
}

/// A failure of a file or directory is told by what could not be done and then the
/// path.
pub proof fn path_comes_last(path: String)
    ensures
        (Failure::ReadParams { format: SrsFormat::SnarkJs, path }).text()
            == "Failed to read .ptau file "@ + path@,
        (Failure::ReadParams { format: SrsFormat::Pse, path }).text()
            == "Failed to read .srs file "@ + path@,
        (Failure::Directory { path }).text() == "Failed to locate directory at "@ + path@,
        (Failure::CreateFile { path }).text() == "Failed to create new file at "@ + path@,
        (Failure::OpenFile { path }).text() == "Failed to open file at "@ + path@,
        (Failure::WriteFile { path }).text() == "Failed to write to file at "@ + path@,
        (Failure::WriteVerifier { path }).text() == "Failed to write evm verifier to "@ + path@,
        (Failure::MissingKey { path }).text() == "Failed to locate verification key at "@ + path@,
{
}

/// A failure of a numbered file is told by the name of that file, and, if it is
/// missing, its path.
pub proof fn numbered_file_is_named(number: u64, path: String)
    ensures
        (Failure::MissingProof { number, path }).text() == "Failed to locate "@ + proof_name(
            number as nat,
        ) + " at "@ + path@,
        (Failure::MissingPublic { number, path }).text() == "Failed to locate "@ + public_name(
            number as nat,
        ) + " at "@ + path@,
        (Failure::MalformedProof { number }).text() == "Malformed "@ + proof_name(number as nat),
        (Failure::MalformedPublic { number }).text() == "Malformed "@ + public_name(number as nat),
{
    reveal_strlit("Failed to locate ");
    reveal_strlit("Failed to locate proof");
    reveal_strlit("Failed to locate public");
    reveal_strlit("Malformed ");
    reveal_strlit("Malformed proof");
    reveal_strlit("Malformed public");
    reveal_strlit("proof");
    reveal_strlit("public");
    reveal_strlit(".json");
    reveal_strlit(" at ");
    reveal_strlit(".json at ");
    assert((Failure::MissingProof { number, path }).text() =~= "Failed to locate "@ + proof_name(
        number as nat,
    ) + " at "@ + path@);
    assert((Failure::MissingPublic { number, path }).text() =~= "Failed to locate "@ + public_name(
        number as nat,
    ) + " at "@ + path@);
    assert((Failure::MalformedProof { number }).text() =~= "Malformed "@ + proof_name(
        number as nat,
    ));
    assert((Failure::MalformedPublic { number }).text() =~= "Malformed "@ + public_name(
        number as nat,
    ));
}

/// A failure that carries a message is told by that message and nothing else, and
/// those that carry nothing are told by a fixed one.
pub proof fn other_failures_are_told(message: String)
    ensures
        (Failure::Outside { message }).text() == message@,
        Failure::ParamsExtension.text()
            == "Invalid file extension. Only .ptau or .srs files allowed for params"@,
        Failure::ParamsPath.text() == "Invalid file path for params"@,
        Failure::MalformedParams.text() == "Malformed params file"@,
        Failure::MalformedKey.text() == "Malformed verification key"@,
        Failure::MockProver.text() == "Mock prover failed"@,
        Failure::EvmCall.text() == "EVM verification failed!"@,
        Failure::EvmVerification.text() == "Evm verification failed"@,
{
}

} // verus!
