//! The tag reader: which command a tag that was read gives rise to.

use crate::marker_color::MarkerColor;
use crate::state::StateCommand;
use mfrc522::Uid;
use vstd::prelude::*;

verus! {

/// The identifier that the `mfrc522` driver returns for a selected tag,
/// opaque to the verifier.
#[verifier::external_type_specification]
#[verifier::external_body]
pub struct ExUid(Uid);

/// The bytes that a tag identifier holds: four, seven or ten of them.
pub uninterp spec fn card_uid_bytes(uid: Uid) -> Seq<u8>;

/// Calls `mfrc522::Uid::as_bytes`, which hands out the bytes of the
/// identifier, of whichever size it is; the contract gives those bytes their
/// name.
#[verifier::external_body]
fn card_uid_as_bytes(uid: &Uid) -> (bytes: &[u8])
    ensures
        bytes@ == card_uid_bytes(*uid),
{
    uid.as_bytes()
}

/// The command that a tag with the bytes `tag` gives rise to: the detection
/// of its color where the tag is that of a configured marker, else none.
pub open spec fn detection_command(tag: Seq<u8>) -> Option<StateCommand> {
    match MarkerColor::spec_from_tag(tag) {
        Some(color) => Some(StateCommand::SetMarkerColor(color)),
        None => None,
    }
}

/// Returns the command to submit for a tag with the bytes `tag`.
pub fn command_for_tag(tag: &[u8]) -> (command: Option<StateCommand>)
    ensures
        command == detection_command(tag@),
{
    match MarkerColor::from_tag(tag) {
        Some(color) => Some(StateCommand::SetMarkerColor(color)),
        None => None,
    }
}

/// Returns the command to submit for the tag that the reader selected: an
/// unrecognized tag, of whatever size, gives none.
pub fn command_for_uid(uid: &Uid) -> (command: Option<StateCommand>)
    ensures
        command == detection_command(card_uid_bytes(*uid)),
{
    command_for_tag(card_uid_as_bytes(uid))
}

/// Only a tag of seven bytes gives rise to a command.
pub proof fn lemma_only_double_size_tags_are_markers(tag: Seq<u8>)
    requires
        tag.len() != 7,
    ensures
        detection_command(tag) is None,
{
    assert forall|c: MarkerColor| c.spec_uid() != tag by {
        assert(c.spec_uid().len() == 7);
    }
}

} // verus!
