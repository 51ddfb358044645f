//! The address of the deployed program.
use vstd::prelude::*;
use crate::pubkey::Pubkey;

verus! {

/// The program's address, `HP8ptgh4CDEwgR7rSESkfR4ZxyrLcg5VfkossDLwU5RS`,
/// as bytes.
pub open spec fn program_id_spec() -> Seq<u8> {
    seq![243u8, 102u8, 157u8, 255u8, 103u8, 131u8, 44u8, 72u8, 167u8, 61u8, 80u8, 232u8, 166u8, 154u8, 112u8, 249u8, 192u8, 113u8, 97u8, 11u8, 34u8, 118u8, 157u8, 27u8, 113u8, 225u8, 149u8, 73u8, 178u8, 11u8, 138u8, 145u8]
}

/// The program's address.
pub fn id() -> (key: Pubkey)
    ensures
        key@ == program_id_spec(),
{
    let key = Pubkey { bytes: [243, 102, 157, 255, 103, 131, 44, 72, 167, 61, 80, 232, 166, 154, 112, 249, 192, 113, 97, 11, 34, 118, 157, 27, 113, 225, 149, 73, 178, 11, 138, 145] };
    assert(key@ =~= program_id_spec());
    key
}

} // verus!
