//! The downloaded artifact: finding the executable among the entries of the
//! archive.

use vstd::prelude::*;
use crate::error::UpdateError;

verus! {

/// One entry of an archive, as it was read.
#[derive(Debug)]
pub struct ArchiveEntry {
    /// Whether the entry is a regular file rather than a directory marker;
    /// nothing where the entry could not be opened.
    pub is_file: Option<bool>,
    /// The entry's unpacked bytes; nothing where they could not be read in
    /// full.
    pub data: Option<Vec<u8>>,
}

/// Mathematical value of an [`ArchiveEntry`].
pub struct EntryModel {
    pub is_file: Option<bool>,
    pub data: Option<Seq<u8>>,
}

impl View for ArchiveEntry {
    type V = EntryModel;

    open spec fn view(&self) -> EntryModel {
        EntryModel {
            is_file: self.is_file,
            data: match self.data {
                Some(bytes) => Some(bytes@),
                None => None,
            },
        }
    }
}

/// The models of the entries of an archive, in archive order.
pub open spec fn entry_models(entries: Seq<ArchiveEntry>) -> Seq<EntryModel> {
    Seq::new(entries.len(), |i: int| entries[i]@)
}

/// The executable among `entries`, scanning from position `i`: directory
/// markers are skipped, and the first other entry decides. If it could not
/// be opened or read, the archive is corrupt; otherwise its bytes are the
/// executable. With no such entry the executable is missing.
pub open spec fn payload_from(entries: Seq<EntryModel>, i: int) -> Result<Seq<u8>, UpdateError>
    decreases entries.len() - i,
{
    if i < 0 || i >= entries.len() {
        Err(UpdateError::MissingEntry)
    } else {
        match entries[i].is_file {
            None => Err(UpdateError::CorruptArchive),
            Some(false) => payload_from(entries, i + 1),
            Some(true) => match entries[i].data {
                None => Err(UpdateError::CorruptArchive),
                Some(data) => Ok(data),
            },
        }
    }
}

/// The executable among `entries`.
pub open spec fn payload(entries: Seq<EntryModel>) -> Result<Seq<u8>, UpdateError> {
    payload_from(entries, 0)
}

/// Whether a result in bytes is the given result over byte sequences.
pub open spec fn is_outcome(
    r: Result<Vec<u8>, UpdateError>,
    model: Result<Seq<u8>, UpdateError>,
) -> bool {
    match r {
        Ok(data) => model == Ok::<Seq<u8>, UpdateError>(data@),
        Err(e) => model == Err::<Seq<u8>, UpdateError>(e),
    }
}

/// Extracts the executable from the entries of a downloaded archive: the
/// bytes of the first entry that is a regular file. Fails with
/// `CorruptArchive` where the entry that decides could not be opened or
/// read, and with `MissingEntry` where the archive holds no regular file.
pub fn extract_executable(entries: Vec<ArchiveEntry>) -> (r: Result<Vec<u8>, UpdateError>)
    ensures
        is_outcome(r, payload(entry_models(entries@))),
{
    let ghost all = entry_models(entries@);
    for entry in it: entries
        invariant
            it.seq() == entries@,
            all == entry_models(entries@),
            payload(all) == payload_from(all, it.index()),
    {
        assert(all[it.index()] == entry@);
        match entry.is_file {
            None => {
                return Err(UpdateError::CorruptArchive);
            },
            Some(true) => {
                return match entry.data {
                    Some(data) => Ok(data),
                    None => Err(UpdateError::CorruptArchive),
                };
            },
            Some(false) => {},
        }
    }
    Err(UpdateError::MissingEntry)
}

/// An archive whose entries are all directory markers holds no executable.
pub proof fn lemma_payload_without_file(entries: Seq<EntryModel>, i: int)
    requires
        0 <= i,
        forall|j: int| i <= j < entries.len() ==> (#[trigger] entries[j]).is_file == Some(false),
    ensures
        payload_from(entries, i) == Err::<Seq<u8>, UpdateError>(UpdateError::MissingEntry),
    decreases entries.len() - i,
{
    if i < entries.len() {
        lemma_payload_without_file(entries, i + 1);
    }
}

/// The executable is the first regular file: where the entries before
/// position `k` are directory markers and the entry at `k` is a regular file
/// with bytes `data`, the executable is `data`, whatever follows.
pub proof fn lemma_payload_first_file(entries: Seq<EntryModel>, i: int, k: int, data: Seq<u8>)
    requires
        0 <= i <= k < entries.len(),
        forall|j: int| i <= j < k ==> (#[trigger] entries[j]).is_file == Some(false),
        entries[k].is_file == Some(true),
        entries[k].data == Some(data),
    ensures
        payload_from(entries, i) == Ok::<Seq<u8>, UpdateError>(data),
    decreases k - i,
{
    if i < k {
        lemma_payload_first_file(entries, i + 1, k, data);
    }
}

} // verus!
