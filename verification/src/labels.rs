//! The fixed byte strings (salts, infos and labels) of the protocol.
use vstd::prelude::*;

verus! {

/// The HKDF salt of the X3DH key derivation: the ASCII bytes of `Signal_X3DH_Salt`.
pub open spec fn spec_x3dh_salt() -> Seq<u8> {
    seq![83u8, 105u8, 103u8, 110u8, 97u8, 108u8, 95u8, 88u8, 51u8, 68u8, 72u8, 95u8, 83u8, 97u8, 108u8, 116u8]
}

/// The HKDF salt of the X3DH key derivation: the ASCII bytes of `Signal_X3DH_Salt`.
pub fn x3dh_salt() -> (v: Vec<u8>)
    ensures
        v@ == spec_x3dh_salt(),
{
    let v = vec![83u8, 105u8, 103u8, 110u8, 97u8, 108u8, 95u8, 88u8, 51u8, 68u8, 72u8, 95u8, 83u8, 97u8, 108u8, 116u8];
    assert(v@ =~= spec_x3dh_salt());
    v
}

/// The HKDF info of the X3DH key derivation: the ASCII bytes of `Signal_X3DH_Key_Derivation`.
pub open spec fn spec_x3dh_info() -> Seq<u8> {
    seq![83u8, 105u8, 103u8, 110u8, 97u8, 108u8, 95u8, 88u8, 51u8, 68u8, 72u8, 95u8, 75u8, 101u8, 121u8, 95u8, 68u8, 101u8, 114u8, 105u8, 118u8, 97u8, 116u8, 105u8, 111u8, 110u8]
}

/// The HKDF info of the X3DH key derivation: the ASCII bytes of `Signal_X3DH_Key_Derivation`.
pub fn x3dh_info() -> (v: Vec<u8>)
    ensures
        v@ == spec_x3dh_info(),
{
    let v = vec![83u8, 105u8, 103u8, 110u8, 97u8, 108u8, 95u8, 88u8, 51u8, 68u8, 72u8, 95u8, 75u8, 101u8, 121u8, 95u8, 68u8, 101u8, 114u8, 105u8, 118u8, 97u8, 116u8, 105u8, 111u8, 110u8];
    assert(v@ =~= spec_x3dh_info());
    v
}

/// The associated data an X3DH agreement gives: the ASCII bytes of `X3DH_Key_Exchange`.
pub open spec fn spec_x3dh_associated_data() -> Seq<u8> {
    seq![88u8, 51u8, 68u8, 72u8, 95u8, 75u8, 101u8, 121u8, 95u8, 69u8, 120u8, 99u8, 104u8, 97u8, 110u8, 103u8, 101u8]
}

/// The associated data an X3DH agreement gives: the ASCII bytes of `X3DH_Key_Exchange`.
pub fn x3dh_associated_data() -> (v: Vec<u8>)
    ensures
        v@ == spec_x3dh_associated_data(),
{
    let v = vec![88u8, 51u8, 68u8, 72u8, 95u8, 75u8, 101u8, 121u8, 95u8, 69u8, 120u8, 99u8, 104u8, 97u8, 110u8, 103u8, 101u8];
    assert(v@ =~= spec_x3dh_associated_data());
    v
}

/// The HKDF info that derives chain keys: the ASCII bytes of `Signal_DoubleRatchet_ChainKey`.
pub open spec fn spec_chain_key_info() -> Seq<u8> {
    seq![83u8, 105u8, 103u8, 110u8, 97u8, 108u8, 95u8, 68u8, 111u8, 117u8, 98u8, 108u8, 101u8, 82u8, 97u8, 116u8, 99u8, 104u8, 101u8, 116u8, 95u8, 67u8, 104u8, 97u8, 105u8, 110u8, 75u8, 101u8, 121u8]
}

/// The HKDF info that derives chain keys: the ASCII bytes of `Signal_DoubleRatchet_ChainKey`.
pub fn chain_key_info() -> (v: Vec<u8>)
    ensures
        v@ == spec_chain_key_info(),
{
    let v = vec![83u8, 105u8, 103u8, 110u8, 97u8, 108u8, 95u8, 68u8, 111u8, 117u8, 98u8, 108u8, 101u8, 82u8, 97u8, 116u8, 99u8, 104u8, 101u8, 116u8, 95u8, 67u8, 104u8, 97u8, 105u8, 110u8, 75u8, 101u8, 121u8];
    assert(v@ =~= spec_chain_key_info());
    v
}

/// The HKDF info that derives message keys: the ASCII bytes of `Signal_DoubleRatchet_MessageKey`.
pub open spec fn spec_message_key_info() -> Seq<u8> {
    seq![83u8, 105u8, 103u8, 110u8, 97u8, 108u8, 95u8, 68u8, 111u8, 117u8, 98u8, 108u8, 101u8, 82u8, 97u8, 116u8, 99u8, 104u8, 101u8, 116u8, 95u8, 77u8, 101u8, 115u8, 115u8, 97u8, 103u8, 101u8, 75u8, 101u8, 121u8]
}

/// The HKDF info that derives message keys: the ASCII bytes of `Signal_DoubleRatchet_MessageKey`.
pub fn message_key_info() -> (v: Vec<u8>)
    ensures
        v@ == spec_message_key_info(),
{
    let v = vec![83u8, 105u8, 103u8, 110u8, 97u8, 108u8, 95u8, 68u8, 111u8, 117u8, 98u8, 108u8, 101u8, 82u8, 97u8, 116u8, 99u8, 104u8, 101u8, 116u8, 95u8, 77u8, 101u8, 115u8, 115u8, 97u8, 103u8, 101u8, 75u8, 101u8, 121u8];
    assert(v@ =~= spec_message_key_info());
    v
}

/// The HKDF salt that derives a message key from a chain key: the ASCII bytes of `Signal_Message_Salt`.
pub open spec fn spec_message_key_salt() -> Seq<u8> {
    seq![83u8, 105u8, 103u8, 110u8, 97u8, 108u8, 95u8, 77u8, 101u8, 115u8, 115u8, 97u8, 103u8, 101u8, 95u8, 83u8, 97u8, 108u8, 116u8]
}

/// The HKDF salt that derives a message key from a chain key: the ASCII bytes of `Signal_Message_Salt`.
pub fn message_key_salt() -> (v: Vec<u8>)
    ensures
        v@ == spec_message_key_salt(),
{
    let v = vec![83u8, 105u8, 103u8, 110u8, 97u8, 108u8, 95u8, 77u8, 101u8, 115u8, 115u8, 97u8, 103u8, 101u8, 95u8, 83u8, 97u8, 108u8, 116u8];
    assert(v@ =~= spec_message_key_salt());
    v
}

/// The HKDF salt that derives the next chain key: the ASCII bytes of `Signal_Chain_Salt`.
pub open spec fn spec_chain_key_salt() -> Seq<u8> {
    seq![83u8, 105u8, 103u8, 110u8, 97u8, 108u8, 95u8, 67u8, 104u8, 97u8, 105u8, 110u8, 95u8, 83u8, 97u8, 108u8, 116u8]
}

/// The HKDF salt that derives the next chain key: the ASCII bytes of `Signal_Chain_Salt`.
pub fn chain_key_salt() -> (v: Vec<u8>)
    ensures
        v@ == spec_chain_key_salt(),
{
    let v = vec![83u8, 105u8, 103u8, 110u8, 97u8, 108u8, 95u8, 67u8, 104u8, 97u8, 105u8, 110u8, 95u8, 83u8, 97u8, 108u8, 116u8];
    assert(v@ =~= spec_chain_key_salt());
    v
}

/// The HKDF salt of a Diffie-Hellman ratchet step: the ASCII bytes of `Signal_DH_Ratchet`.
pub open spec fn spec_dh_ratchet_salt() -> Seq<u8> {
    seq![83u8, 105u8, 103u8, 110u8, 97u8, 108u8, 95u8, 68u8, 72u8, 95u8, 82u8, 97u8, 116u8, 99u8, 104u8, 101u8, 116u8]
}

/// The HKDF salt of a Diffie-Hellman ratchet step: the ASCII bytes of `Signal_DH_Ratchet`.
pub fn dh_ratchet_salt() -> (v: Vec<u8>)
    ensures
        v@ == spec_dh_ratchet_salt(),
{
    let v = vec![83u8, 105u8, 103u8, 110u8, 97u8, 108u8, 95u8, 68u8, 72u8, 95u8, 82u8, 97u8, 116u8, 99u8, 104u8, 101u8, 116u8];
    assert(v@ =~= spec_dh_ratchet_salt());
    v
}

/// The HKDF salt of the first chain key of a session: the ASCII bytes of `Signal_Initial_Chain`.
pub open spec fn spec_initial_chain_salt() -> Seq<u8> {
    seq![83u8, 105u8, 103u8, 110u8, 97u8, 108u8, 95u8, 73u8, 110u8, 105u8, 116u8, 105u8, 97u8, 108u8, 95u8, 67u8, 104u8, 97u8, 105u8, 110u8]
}

/// The HKDF salt of the first chain key of a session: the ASCII bytes of `Signal_Initial_Chain`.
pub fn initial_chain_salt() -> (v: Vec<u8>)
    ensures
        v@ == spec_initial_chain_salt(),
{
    let v = vec![83u8, 105u8, 103u8, 110u8, 97u8, 108u8, 95u8, 73u8, 110u8, 105u8, 116u8, 105u8, 97u8, 108u8, 95u8, 67u8, 104u8, 97u8, 105u8, 110u8];
    assert(v@ =~= spec_initial_chain_salt());
    v
}

/// The prefix of skipped-key identifiers when no sender ratchet key is known: the ASCII bytes of `none`.
pub open spec fn spec_none_label() -> Seq<u8> {
    seq![110u8, 111u8, 110u8, 101u8]
}

/// The prefix of skipped-key identifiers when no sender ratchet key is known: the ASCII bytes of `none`.
pub fn none_label() -> (v: Vec<u8>)
    ensures
        v@ == spec_none_label(),
{
    let v = vec![110u8, 111u8, 110u8, 101u8];
    assert(v@ =~= spec_none_label());
    v
}

} // verus!
