use yoku::util::calculate_hash;

// `DefaultHasher`'s algorithm is unspecified and std reserves the right to
// change it between releases, so its concrete digests are stable only for a
// pinned toolchain. The values below are the digests of the toolchain this
// crate builds with; a std release with a different hashing of integers
// yields different numbers for the same inputs.
#[test]
fn hash_test() {
    assert_eq!(2748490571820495779, calculate_hash(&6));
    assert_eq!(7392818472452443755, calculate_hash(&512));
    assert_eq!(2270354339022497230, calculate_hash(&3123));
    assert_eq!(14334111852693195206, calculate_hash(&643113));
    assert_eq!(2236313024366553745, calculate_hash(&431678));
    assert_eq!(10363793956940938452, calculate_hash(&(547635431 as u64)));
    assert_eq!(17234162834277073615, calculate_hash(&(5134687543 as u64)));
    assert_eq!(8308702756688553633, calculate_hash(&(12381298312 as u64)));
}
