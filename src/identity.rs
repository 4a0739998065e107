//! Descriptive metadata that a subnet owner may attach to a subnet, and its validation.
use vstd::prelude::*;

verus! {

pub const MAX_NAME_LEN: usize = 256;

pub const MAX_TEXT_LEN: usize = 1024;

/// Free-form metadata of a subnet; each field is raw bytes.
#[derive(Clone, Debug)]
pub struct SubnetIdentity {
    pub subnet_name: Vec<u8>,
    pub github_repo: Vec<u8>,
    pub subnet_contact: Vec<u8>,
    pub subnet_url: Vec<u8>,
    pub discord: Vec<u8>,
    pub description: Vec<u8>,
    pub additional: Vec<u8>,
}

/// An identity is valid when the name and the Discord handle hold at most
/// `MAX_NAME_LEN` bytes and every other field at most `MAX_TEXT_LEN` bytes.
pub open spec fn identity_valid(id: SubnetIdentity) -> bool {
    &&& id.subnet_name@.len() <= MAX_NAME_LEN
    &&& id.github_repo@.len() <= MAX_TEXT_LEN
    &&& id.subnet_contact@.len() <= MAX_TEXT_LEN
    &&& id.subnet_url@.len() <= MAX_TEXT_LEN
    &&& id.discord@.len() <= MAX_NAME_LEN
    &&& id.description@.len() <= MAX_TEXT_LEN
    &&& id.additional@.len() <= MAX_TEXT_LEN
}

/// Checks the field lengths of an identity.
pub fn is_valid_subnet_identity(id: &SubnetIdentity) -> (r: bool)
    ensures
        r == identity_valid(*id),
{
    id.subnet_name.len() <= MAX_NAME_LEN && id.github_repo.len() <= MAX_TEXT_LEN
        && id.subnet_contact.len() <= MAX_TEXT_LEN && id.subnet_url.len() <= MAX_TEXT_LEN
        && id.discord.len() <= MAX_NAME_LEN && id.description.len() <= MAX_TEXT_LEN
        && id.additional.len() <= MAX_TEXT_LEN
}

} // verus!
