//! The work types that the registry is seeded with.

use vstd::prelude::*;

verus! {

/// How many work types the registry is seeded with.
pub const GENESIS_WORK_TYPES: usize = 9;

/// The labels the registry is seeded with, as byte strings. In order:
/// "Prime Pattern Discovery",
/// "Riemann Zero Computation",
/// "Yang-Mills Field Theory",
/// "Goldbach Conjecture Verification",
/// "Navier-Stokes Simulation",
/// "Birch-Swinnerton-Dyer",
/// "Elliptic Curve Cryptography",
/// "Lattice Cryptography",
/// "Poincar\xE9 Conjecture", where `\xE9` is the single byte 0xE9.
pub open spec fn genesis_labels() -> Seq<Seq<u8>> {
    seq![
        seq![
            80u8, 114u8, 105u8, 109u8, 101u8, 32u8, 80u8, 97u8, 116u8, 116u8, 101u8, 114u8,
            110u8, 32u8, 68u8, 105u8, 115u8, 99u8, 111u8, 118u8, 101u8, 114u8, 121u8,
        ],
        seq![
            82u8, 105u8, 101u8, 109u8, 97u8, 110u8, 110u8, 32u8, 90u8, 101u8, 114u8, 111u8,
            32u8, 67u8, 111u8, 109u8, 112u8, 117u8, 116u8, 97u8, 116u8, 105u8, 111u8, 110u8,
        ],
        seq![
            89u8, 97u8, 110u8, 103u8, 45u8, 77u8, 105u8, 108u8, 108u8, 115u8, 32u8, 70u8,
            105u8, 101u8, 108u8, 100u8, 32u8, 84u8, 104u8, 101u8, 111u8, 114u8, 121u8,
        ],
        seq![
            71u8, 111u8, 108u8, 100u8, 98u8, 97u8, 99u8, 104u8, 32u8, 67u8, 111u8, 110u8,
            106u8, 101u8, 99u8, 116u8, 117u8, 114u8, 101u8, 32u8, 86u8, 101u8, 114u8, 105u8,
            102u8, 105u8, 99u8, 97u8, 116u8, 105u8, 111u8, 110u8,
        ],
        seq![
            78u8, 97u8, 118u8, 105u8, 101u8, 114u8, 45u8, 83u8, 116u8, 111u8, 107u8, 101u8,
            115u8, 32u8, 83u8, 105u8, 109u8, 117u8, 108u8, 97u8, 116u8, 105u8, 111u8, 110u8,
        ],
        seq![
            66u8, 105u8, 114u8, 99u8, 104u8, 45u8, 83u8, 119u8, 105u8, 110u8, 110u8, 101u8,
            114u8, 116u8, 111u8, 110u8, 45u8, 68u8, 121u8, 101u8, 114u8,
        ],
        seq![
            69u8, 108u8, 108u8, 105u8, 112u8, 116u8, 105u8, 99u8, 32u8, 67u8, 117u8, 114u8,
            118u8, 101u8, 32u8, 67u8, 114u8, 121u8, 112u8, 116u8, 111u8, 103u8, 114u8, 97u8,
            112u8, 104u8, 121u8,
        ],
        seq![
            76u8, 97u8, 116u8, 116u8, 105u8, 99u8, 101u8, 32u8, 67u8, 114u8, 121u8, 112u8,
            116u8, 111u8, 103u8, 114u8, 97u8, 112u8, 104u8, 121u8,
        ],
        seq![
            80u8, 111u8, 105u8, 110u8, 99u8, 97u8, 114u8, 233u8, 32u8, 67u8, 111u8, 110u8,
            106u8, 101u8, 99u8, 116u8, 117u8, 114u8, 101u8,
        ],
    ]
}

/// The set of the labels the registry is seeded with.
pub open spec fn genesis_work_types() -> Set<Seq<u8>> {
    Set::new(|label: Seq<u8>| genesis_labels().contains(label))
}

/// The label at position `i` of `genesis_labels`.
pub fn genesis_label(i: usize) -> (label: Vec<u8>)
    requires
        i < GENESIS_WORK_TYPES,
    ensures
        label@ == genesis_labels()[i as int],
{
    match i {
        0 => vec![
            80u8, 114u8, 105u8, 109u8, 101u8, 32u8, 80u8, 97u8, 116u8, 116u8, 101u8, 114u8,
            110u8, 32u8, 68u8, 105u8, 115u8, 99u8, 111u8, 118u8, 101u8, 114u8, 121u8,
        ],
        1 => vec![
            82u8, 105u8, 101u8, 109u8, 97u8, 110u8, 110u8, 32u8, 90u8, 101u8, 114u8, 111u8,
            32u8, 67u8, 111u8, 109u8, 112u8, 117u8, 116u8, 97u8, 116u8, 105u8, 111u8, 110u8,
        ],
        2 => vec![
            89u8, 97u8, 110u8, 103u8, 45u8, 77u8, 105u8, 108u8, 108u8, 115u8, 32u8, 70u8,
            105u8, 101u8, 108u8, 100u8, 32u8, 84u8, 104u8, 101u8, 111u8, 114u8, 121u8,
        ],
        3 => vec![
            71u8, 111u8, 108u8, 100u8, 98u8, 97u8, 99u8, 104u8, 32u8, 67u8, 111u8, 110u8,
            106u8, 101u8, 99u8, 116u8, 117u8, 114u8, 101u8, 32u8, 86u8, 101u8, 114u8, 105u8,
            102u8, 105u8, 99u8, 97u8, 116u8, 105u8, 111u8, 110u8,
        ],
        4 => vec![
            78u8, 97u8, 118u8, 105u8, 101u8, 114u8, 45u8, 83u8, 116u8, 111u8, 107u8, 101u8,
            115u8, 32u8, 83u8, 105u8, 109u8, 117u8, 108u8, 97u8, 116u8, 105u8, 111u8, 110u8,
        ],
        5 => vec![
            66u8, 105u8, 114u8, 99u8, 104u8, 45u8, 83u8, 119u8, 105u8, 110u8, 110u8, 101u8,
            114u8, 116u8, 111u8, 110u8, 45u8, 68u8, 121u8, 101u8, 114u8,
        ],
        6 => vec![
            69u8, 108u8, 108u8, 105u8, 112u8, 116u8, 105u8, 99u8, 32u8, 67u8, 117u8, 114u8,
            118u8, 101u8, 32u8, 67u8, 114u8, 121u8, 112u8, 116u8, 111u8, 103u8, 114u8, 97u8,
            112u8, 104u8, 121u8,
        ],
        7 => vec![
            76u8, 97u8, 116u8, 116u8, 105u8, 99u8, 101u8, 32u8, 67u8, 114u8, 121u8, 112u8,
            116u8, 111u8, 103u8, 114u8, 97u8, 112u8, 104u8, 121u8,
        ],
        _ => vec![
            80u8, 111u8, 105u8, 110u8, 99u8, 97u8, 114u8, 233u8, 32u8, 67u8, 111u8, 110u8,
            106u8, 101u8, 99u8, 116u8, 117u8, 114u8, 101u8,
        ],
    }
}

} // verus!
