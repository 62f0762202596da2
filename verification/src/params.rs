//! Which format a file of parameters is in, and of which degree parameters are.

use vstd::prelude::*;

use crate::failure::Failure;
use crate::files::srs_name;
use crate::inputs::Fetched;
use crate::paths::{extension, extension_of_file, file_extension, portable};
use crate::text::{decimal, decimal_digits};

verus! {

/// How parameters are written in a file.
#[derive(Clone, Copy, Debug, PartialEq, Eq, Structural)]
pub enum SrsFormat {
    SnarkJs,
    Pse,
}

/// The format that an extension of a file name stands for.
pub open spec fn format_of(extension: Seq<char>) -> Option<SrsFormat> {
    if extension == "ptau"@ {
        Some(SrsFormat::SnarkJs)
    } else if extension == "srs"@ {
        Some(SrsFormat::Pse)
    } else {
        None
    }
}

/// The format of a file of parameters, from the extension of its name, or why there
/// is none.
pub open spec fn format_by(extension: Option<Seq<char>>) -> Result<SrsFormat, Failure> {
    match extension {
        None => Err(Failure::ParamsPath),
        Some(name) => match format_of(name) {
            Some(known) => Ok(known),
            None => Err(Failure::ParamsExtension),
        },
    }
}

/// The format of a file of parameters, from its path. Where platforms take the path
/// apart in different ways, it is the format of what the platform says is the
/// extension.
pub fn params_format_of(path: &str) -> (format: Result<SrsFormat, Failure>)
    ensures
        portable(path@) ==> format == format_by(extension(path@)),
        exists|found: Option<Seq<char>>| format == #[trigger] format_by(found),
{
    let found = file_extension(path);
    let ghost text = if found is Some {
        Some(found->0@)
    } else {
        None
    };
    let format = params_format(found);
    assert(format == format_by(text));
    format
}

/// The file that parameters are written to is read in the format that they are
/// written in, in whichever directory it is.
pub proof fn saved_params_format(directory: Seq<char>, k: nat)
    requires
        directory.len() == 0 || directory.last() == '/',
    ensures
        format_by(extension(directory + srs_name(k))) == Ok::<_, Failure>(SrsFormat::Pse),
{
    reveal_strlit("k-");
    reveal_strlit(".srs");
    reveal_strlit("srs");
    reveal_strlit("ptau");
    decimal_digits(k);
    let stem = "k-"@ + decimal(k);
    assert forall|i: int| 0 <= i < stem.len() implies #[trigger] stem[i] != '/' by {
        if i >= 2 {
            assert(stem[i] == decimal(k)[i - 2]);
        }
    }
    extension_of_file(directory, stem, "srs"@);
    assert(".srs"@ =~= seq!['.'] + "srs"@);
    assert(srs_name(k) =~= stem + seq!['.'] + "srs"@);
    assert("srs"@.len() != "ptau"@.len());
}

/// The format of a file of parameters, from the extension of its name.
pub fn params_format(extension: Option<String>) -> (format: Result<SrsFormat, Failure>)
    ensures
        match extension {
            Some(name) => format == format_by(Some(name@)),
            None => format == format_by(None),
        },
{
    proof {
        reveal_strlit("ptau");
        reveal_strlit("srs");
    }
    match extension {
        None => Err(Failure::ParamsPath),
        Some(name) => if name == "ptau".to_owned() {
            Ok(SrsFormat::SnarkJs)
        } else if name == "srs".to_owned() {
            Ok(SrsFormat::Pse)
        } else {
            Err(Failure::ParamsExtension)
        },
    }
}

/// The degree that the provers are run at for a degree given as a machine word:
/// its lowest 32 bits.
pub fn degree(k: usize) -> (degree: u32)
    ensures
        degree as int == k as int % 0x1_0000_0000,
        k < 0x1_0000_0000 ==> degree == k,
{
    let low = k as u64 % 0x1_0000_0000;
    low as u32
}

/// The parameters that were read from a file of this format, or why there are
/// none.
pub open spec fn prepared<K>(format: SrsFormat, fetched: Fetched<K>) -> Result<K, Failure> {
    match fetched {
        Fetched::Missing { path } => Err(Failure::ReadParams { format, path }),
        Fetched::Malformed => Err(Failure::MalformedParams),
        Fetched::Parsed(params) => Ok(params),
    }
}

/// The parameters that were read from a file of this format, or why there are
/// none.
pub fn prepare_params<K>(format: SrsFormat, fetched: Fetched<K>) -> (params: Result<K, Failure>)
    ensures
        params == prepared(format, fetched),
{
    match fetched {
        Fetched::Missing { path } => Err(Failure::ReadParams { format, path }),
        Fetched::Malformed => Err(Failure::MalformedParams),
        Fetched::Parsed(params) => Ok(params),
    }
}

/// An extension tells the format: `ptau` files are in that of snarkjs, `srs` files in
/// that of the prover, and others in none. A file without one is no file of
/// parameters.
pub proof fn extension_tells_format(found: Option<Seq<char>>)
    ensures
        format_by(found) == Ok::<_, Failure>(SrsFormat::SnarkJs) <==> found == Some("ptau"@),
        format_by(found) == Ok::<_, Failure>(SrsFormat::Pse) <==> found == Some("srs"@),
        format_by(found) == Err::<SrsFormat, _>(Failure::ParamsPath) <==> found is None,
        format_by(found) == Err::<SrsFormat, _>(Failure::ParamsExtension) <==> {
            &&& found is Some
            &&& found != Some("ptau"@)
            &&& found != Some("srs"@)
        },
{
    reveal_strlit("ptau");
    reveal_strlit("srs");
    assert("ptau"@.len() != "srs"@.len());
}

/// Parameters that were read are handed on as they are. A file that is missing is
/// told by its format and path, and one that cannot be read as such.
pub proof fn read_params_are_handed_on<K>(format: SrsFormat, params: K, path: String)
    ensures
        prepared(format, Fetched::Parsed(params)) == Ok::<_, Failure>(params),
        prepared(format, Fetched::<K>::Missing { path }) == Err::<K, _>(
            Failure::ReadParams { format, path },
        ),
        prepared(format, Fetched::<K>::Malformed) == Err::<K, _>(Failure::MalformedParams),
{
}

} // verus!
