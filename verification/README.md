# maze

Aggregates circom-plonk proofs into one proof that an EVM contract can verify.

`src/` is a Verus library with the decisions and the data layout:

- `bytes`, `field`, `limbs`: numbers, field elements, and the limbs that carry
  base-field coordinates in the scalar field;
- `value`, `witness`, `accumulation`, `circuit`: the witnesses of the aggregation
  circuit, the folding of accumulators, and the public inputs;
- `calldata`, `evm`: what the EVM verifier is called with and what is said of it;
- `proving`: when a proof may be given out;
- `text`, `paths`, `files`, `failure`, `report`, `params`, `inputs`, `saving`,
  `workflow`: file names, messages, and the steps of the commands.

`app/` is the command line tool around it. It needs `halo2_proofs` with KZG
commitments, `halo2_wrong_ecc`, `halo2_wrong_transcript`, `plonk_verifier` with
circom support, `halo2_kzg_srs`, and `foundry_evm`, which are distributed as git
repositories.

The library itself takes the curve from `halo2curves`, the package behind
`halo2_curves`, and the limbs and the calldata from `snark-verifier`, the published
successor of `plonk_verifier`.
