//! Loading every plugin of a directory, one request to the host at a time.
//!
//! The host reads directories and opens modules; the scan decides what is to
//! be read or opened next and what becomes of each answer. A host asks the
//! scan for its request, carries it out, hands the reply to
//! `PluginManager::load_directory`, and goes on until the scan has finished.
//!
//! The first module that fails to load ends the scan with its error. Plugins
//! loaded before it stay loaded; files after it are never opened.

use vstd::prelude::*;
use vstd::string::StringExecFns;
use crate::effect::{Effect, Journal};
use crate::loader::{LoadError, LoadOutcome};
use crate::manager::PluginManager;

verus! {

/// What kind of thing a directory entry is.
#[derive(Debug, PartialEq, Eq)]
pub enum EntryKind {
    RegularFile,
    Directory,
    /// Neither a regular file nor a directory.
    Other,
    /// The kind could not be determined.
    Unknown,
}

/// One immediate entry of a directory, as the host found it.
#[derive(Debug, PartialEq, Eq)]
pub enum DirectoryEntry {
    /// The entry could not be read.
    Unreadable,
    Found { path: String, kind: EntryKind },
}

impl DirectoryEntry {
    /// The path to open as a module, for an entry that is a regular file.
    pub open spec fn candidate(self) -> Option<Seq<char>> {
        match self {
            DirectoryEntry::Found { path, kind: EntryKind::RegularFile } => Some(path@),
            _ => None,
        }
    }
}

/// The paths of the regular files of a listing, in the order of the listing.
pub open spec fn candidates(listing: Seq<DirectoryEntry>) -> Seq<Seq<char>> {
    listing.filter_map(|entry: DirectoryEntry| entry.candidate())
}

/// The paths of a list of strings.
pub open spec fn paths(files: Seq<String>) -> Seq<Seq<char>> {
    files.map_values(|file: String| file@)
}

/// Picks the regular files out of a listing, keeping their order.
pub fn regular_files(listing: &Vec<DirectoryEntry>) -> (files: Vec<String>)
    ensures
        paths(files@) == candidates(listing@),
{
    let mut files: Vec<String> = Vec::new();
    let mut position: usize = 0;
    while position < listing.len()
        invariant
            position <= listing@.len(),
            paths(files@) == candidates(listing@.take(position as int)),
        decreases listing@.len() - position,
    {
        proof {
            listing@.lemma_filter_map_take_succ(
                |entry: DirectoryEntry| entry.candidate(),
                position as int,
            );
        }
        match &listing[position] {
            DirectoryEntry::Found { path, kind: EntryKind::RegularFile } => {
                let ghost before = files@;
                files.push(path.clone());
                assert(paths(files@) =~= paths(before) + seq![path@]);
            },
            _ => {},
        }
        position = position + 1;
    }
    proof {
        assert(listing@.take(position as int) =~= listing@);
    }
    files
}

/// Where a scan stands.
pub enum ScanState {
    /// The listing of the directory is awaited.
    AwaitListing { directory: Seq<char> },
    /// The modules at `pending` are still to be opened, the first of them
    /// next. `pending` is never empty.
    AwaitModule { pending: Seq<Seq<char>> },
    /// Nothing is left to do.
    Finished { result: Result<(), LoadError> },
}

/// What the host is to do next.
#[derive(Debug, PartialEq, Eq)]
pub enum ScanRequest {
    /// List the immediate entries of this directory.
    ReadDirectory(String),
    /// Open the module at this path and run its factory.
    OpenModule(String),
    /// Nothing: the scan has finished.
    Finished,
}

/// What the host found when it carried out a request.
pub enum ScanReply<M> {
    /// The entries of the directory, or why it could not be listed.
    Listing(Result<Vec<DirectoryEntry>, String>),
    /// The result of opening a module.
    Module(LoadOutcome<M>),
}

/// The progress of loading one directory.
pub struct DirectoryScan {
    failure: Option<LoadError>,
    directory: Option<String>,
    pending: Vec<String>,
}

impl DirectoryScan {
    pub closed spec fn state(&self) -> ScanState {
        if let Some(error) = self.failure {
            ScanState::Finished { result: Err(error) }
        } else if let Some(directory) = self.directory {
            ScanState::AwaitListing { directory: directory@ }
        } else if self.pending@.len() > 0 {
            ScanState::AwaitModule { pending: paths(self.pending@) }
        } else {
            ScanState::Finished { result: Ok(()) }
        }
    }

    /// Starts a scan of `directory`. With an empty name there is nothing to
    /// scan, and the scan has finished with success before any request is
    /// made.
    pub fn begin(directory: &str) -> (scan: DirectoryScan)
        ensures
            scan.state() == (if directory@.len() == 0 {
                ScanState::Finished { result: Ok(()) }
            } else {
                ScanState::AwaitListing { directory: directory@ }
            }),
    {
        if directory.is_empty() {
            DirectoryScan { failure: None, directory: None, pending: Vec::new() }
        } else {
            DirectoryScan {
                failure: None,
                directory: Some(String::from_str(directory)),
                pending: Vec::new(),
            }
        }
    }

    /// What the host is to do next.
    pub fn request(&self) -> (request: ScanRequest)
        ensures
            match self.state() {
                ScanState::AwaitListing { directory } => request matches ScanRequest::ReadDirectory(
                    name,
                ) && name@ == directory,
                ScanState::AwaitModule { pending } => request matches ScanRequest::OpenModule(path)
                    && path@ == pending[0],
                ScanState::Finished { .. } => request is Finished,
            },
    {
        if self.failure.is_some() {
            ScanRequest::Finished
        } else if let Some(directory) = &self.directory {
            ScanRequest::ReadDirectory(directory.clone())
        } else if self.pending.len() > 0 {
            ScanRequest::OpenModule(self.pending[0].clone())
        } else {
            ScanRequest::Finished
        }
    }

    pub fn is_finished(&self) -> (finished: bool)
        ensures
            finished == (self.state() is Finished),
    {
        self.failure.is_some() || (self.directory.is_none() && self.pending.len() == 0)
    }

    /// The result of a scan that has finished; nothing for one that has not.
    pub fn finish(self) -> (result: Option<Result<(), LoadError>>)
        ensures
            match self.state() {
                ScanState::Finished { result: outcome } => result == Some(outcome),
                _ => result.is_none(),
            },
    {
        if let Some(error) = self.failure {
            Some(Err(error))
        } else if self.directory.is_none() && self.pending.len() == 0 {
            Some(Ok(()))
        } else {
            None
        }
    }
}

/// Where a scan stands when the modules at `pending` are all that is left.
pub open spec fn remaining(pending: Seq<Seq<char>>) -> ScanState {
    if pending.len() == 0 {
        ScanState::Finished { result: Ok(()) }
    } else {
        ScanState::AwaitModule { pending }
    }
}

impl ScanState {
    /// Whether `reply` brings a plugin that the manager takes over: it does
    /// when a module is awaited and the reply is a constructed plugin.
    pub open spec fn takes<M>(self, reply: ScanReply<M>) -> bool {
        self is AwaitModule && reply matches ScanReply::Module(LoadOutcome::Constructed { .. })
    }

    /// Where the scan stands after `reply`.
    ///
    /// A listing that failed ends the scan with `DirectoryRead`; one that
    /// succeeded leaves its regular files to be opened. A module that loaded
    /// moves the scan on to the next file; one that did not ends the scan with
    /// its error. A reply that answers no request changes nothing.
    pub open spec fn after<M>(self, reply: ScanReply<M>) -> ScanState {
        match (self, reply) {
            (ScanState::AwaitListing { .. }, ScanReply::Listing(Err(reason))) => {
                ScanState::Finished { result: Err(LoadError::DirectoryRead(reason)) }
            },
            (ScanState::AwaitListing { .. }, ScanReply::Listing(Ok(entries))) => remaining(
                candidates(entries@),
            ),
            (ScanState::AwaitModule { pending }, ScanReply::Module(outcome)) => match outcome.failure() {
                Some(error) => ScanState::Finished { result: Err(error) },
                None => remaining(pending.skip(1)),
            },
            _ => self,
        }
    }

    /// Where the scan stands after each of `replies` in turn.
    pub open spec fn after_all<M>(self, replies: Seq<ScanReply<M>>) -> ScanState
        decreases replies.len(),
    {
        if replies.len() == 0 {
            self
        } else {
            self.after_all(replies.drop_last()).after(replies.last())
        }
    }

    /// How many of `replies` bring a plugin that the manager takes over.
    pub open spec fn taken<M>(self, replies: Seq<ScanReply<M>>) -> nat
        decreases replies.len(),
    {
        if replies.len() == 0 {
            0
        } else {
            let earlier = self.taken(replies.drop_last());
            if self.after_all(replies.drop_last()).takes(replies.last()) {
                earlier + 1
            } else {
                earlier
            }
        }
    }
}

/// The replies that hand `outcomes` to a scan, one module after the other.
pub open spec fn module_replies<M>(outcomes: Seq<LoadOutcome<M>>) -> Seq<ScanReply<M>> {
    outcomes.map_values(|outcome: LoadOutcome<M>| ScanReply::Module(outcome))
}

/// A scan that has finished stays as it is, whatever reply it is given, and
/// no plugin is taken over.
pub proof fn finished_scan_ignores_replies<M>(state: ScanState, reply: ScanReply<M>)
    requires
        state is Finished,
    ensures
        state.after(reply) == state,
        !state.takes(reply),
{
}

/// As long as every module loads, a scan takes over one plugin for each file,
/// in the order of the files, and has finished with success when the last
/// file is done.
pub proof fn scan_loads_every_module<M>(pending: Seq<Seq<char>>, outcomes: Seq<LoadOutcome<M>>)
    requires
        outcomes.len() <= pending.len(),
        forall|i: int| 0 <= i < outcomes.len() ==> (#[trigger] outcomes[i]).failure().is_none(),
    ensures
        remaining(pending).after_all(module_replies(outcomes)) == remaining(
            pending.skip(outcomes.len() as int),
        ),
        remaining(pending).taken(module_replies(outcomes)) == outcomes.len(),
        outcomes.len() == pending.len() ==> remaining(pending).after_all(module_replies(outcomes))
            == (ScanState::Finished { result: Ok(()) }),
    decreases outcomes.len(),
{
    let replies = module_replies(outcomes);
    if outcomes.len() == 0 {
        assert(pending.skip(0) =~= pending);
    } else {
        let earlier = outcomes.drop_last();
        assert(replies.drop_last() =~= module_replies(earlier));
        scan_loads_every_module(pending, earlier);
        assert(pending.skip(earlier.len() as int).skip(1) =~= pending.skip(outcomes.len() as int));
    }
}

/// The first module that fails to load ends the scan with its error: the
/// plugins of the files before it, and no others, have been taken over, and
/// whatever is replied afterwards changes nothing.
pub proof fn scan_stops_at_first_failure<M>(
    pending: Seq<Seq<char>>,
    outcomes: Seq<LoadOutcome<M>>,
    failed: int,
)
    requires
        0 <= failed < outcomes.len(),
        failed < pending.len(),
        outcomes[failed].failure().is_some(),
        forall|i: int| 0 <= i < failed ==> (#[trigger] outcomes[i]).failure().is_none(),
    ensures
        remaining(pending).after_all(module_replies(outcomes)) == (ScanState::Finished {
            result: Err(outcomes[failed].failure().unwrap()),
        }),
        remaining(pending).taken(module_replies(outcomes)) == failed,
    decreases outcomes.len(),
{
    let replies = module_replies(outcomes);
    let earlier = outcomes.drop_last();
    assert(replies.drop_last() =~= module_replies(earlier));
    if outcomes.len() == failed + 1 {
        scan_loads_every_module(pending, earlier);
    } else {
        scan_stops_at_first_failure(pending, earlier, failed);
    }
}

impl<M> PluginManager<M> {
    /// Takes a directory scan one step further with the host's reply to the
    /// scan's request.
    ///
    /// The scan moves as `ScanState::after` says. A plugin that the reply
    /// brings is registered as by `load_plugin` if the scan was waiting for a
    /// module; in every other case the manager stays as it was, so a failure
    /// leaves what was loaded before in place.
    pub fn load_directory(&mut self, scan: &mut DirectoryScan, reply: ScanReply<M>) -> (steps:
        Journal)
        ensures
            old(self).balanced() ==> final(self).balanced(),
            final(scan).state() == old(scan).state().after(reply),
            if old(scan).state().takes(reply) {
                &&& reply matches ScanReply::Module(LoadOutcome::Constructed { instance, module })
                &&& final(self).instances() == old(self).instances().push(instance)
                &&& final(self).modules() == old(self).modules().push(module)
                &&& steps@ == seq![
                    Effect::LoadHook { instance: old(self).instances().len() as usize },
                ]
            } else {
                &&& *final(self) == *old(self)
                &&& steps@.len() == 0
            },
    {
        if scan.failure.is_some() {
            return Journal::new();
        }
        match reply {
            ScanReply::Listing(listing) => {
                if scan.directory.is_some() {
                    match listing {
                        Ok(entries) => {
                            scan.pending = regular_files(&entries);
                            scan.directory = None;
                        },
                        Err(reason) => {
                            scan.failure = Some(LoadError::DirectoryRead(reason));
                        },
                    }
                }
                Journal::new()
            },
            ScanReply::Module(outcome) => {
                if scan.directory.is_none() && scan.pending.len() > 0 {
                    match self.load_plugin(outcome) {
                        Ok(steps) => {
                            let ghost before = scan.pending@;
                            let _ = scan.pending.remove(0);
                            assert(paths(scan.pending@) =~= paths(before).skip(1));
                            steps
                        },
                        Err(error) => {
                            scan.failure = Some(error);
                            Journal::new()
                        },
                    }
                } else {
                    Journal::new()
                }
            },
        }
    }
}

} // verus!
