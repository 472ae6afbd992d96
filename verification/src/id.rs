//! The program's identifier: its declared on-chain address and the base58
//! text form that the log line renders it as.

use vstd::prelude::*;
use vstd::string::StringExecFns;

verus! {

/// The declared on-chain address of this program, in base58 text form.
pub open spec fn declared_id_text_spec() -> Seq<char> {
    "3o24BJPniXvoYR2YU4vTuJkuk6Th6b7G2TPQPykP4qci"@
}

/// The declared on-chain address of this program, as its 32 raw key bytes.
pub open spec fn declared_id_bytes() -> Seq<u8> {
    seq![
        41u8, 129, 72, 161, 230, 166, 230, 57, 154, 130, 206, 126, 245, 112, 235, 228,
        145, 43, 170, 142, 220, 56, 19, 117, 166, 234, 155, 227, 248, 32, 198, 143,
    ]
}

/// A program identifier: the 32 raw bytes of an on-chain address.
pub struct ProgramId {
    pub bytes: [u8; 32],
}

impl View for ProgramId {
    type V = Seq<u8>;

    open spec fn view(&self) -> Seq<u8> {
        self.bytes@
    }
}

/// The declared identifier of this program, as a value.
pub fn declared_id() -> (r: ProgramId)
    ensures
        r@ == declared_id_bytes(),
{
    let bytes: [u8; 32] = [
        41u8, 129, 72, 161, 230, 166, 230, 57, 154, 130, 206, 126, 245, 112, 235, 228,
        145, 43, 170, 142, 220, 56, 19, 117, 166, 234, 155, 227, 248, 32, 198, 143,
    ];
    proof {
        assert(bytes@ =~= declared_id_bytes());
    }
    ProgramId { bytes }
}

/// The declared identifier in its base58 text form.
pub fn declared_id_text() -> (r: String)
    ensures
        r@ == declared_id_text_spec(),
{
    String::from_str("3o24BJPniXvoYR2YU4vTuJkuk6Th6b7G2TPQPykP4qci")
}

} // verus!
