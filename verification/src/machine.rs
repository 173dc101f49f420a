//! The atomic-replace protocol.
//!
//! `Rewrite` drives one replace operation as a state machine: it tells the
//! caller which filesystem or stream action to perform next (`next_action`),
//! and the caller reports each action's outcome back (`step`). The machine
//! itself performs no I/O, so every decision of the protocol is verified:
//! bytes are staged in the temporary file in the order they were read, the
//! destination is touched only by the final rename (or by the copy
//! fallback), and each error kind is reported exactly when its step fails.
//!
//! The ghost fields model the files the caller manipulates, under the
//! assumption that each action has its reported effect: `staged` is the
//! contents of the temporary file, `dest_file` the state of the destination,
//! `consumed` the bytes taken from the input stream so far.

use vstd::prelude::*;

use crate::errors::ErrorKind;
use crate::resolve::is_valid_dest;
use crate::resolve::lemma_temp_name_injective;
use crate::resolve::temp_candidate;
use crate::resolve::temp_name;
use crate::resolve::valid_dest;

verus! {

/// What the destination file holds, in the model: its original contents,
/// fully replaced contents, or — only after a failed copy fallback —
/// possibly partial contents.
pub enum DestFile {
    Untouched,
    Holds(Seq<u8>),
    Unknown,
}

/// Where the protocol stands.
#[derive(Clone, Copy, Debug, PartialEq, Eq, Structural)]
pub enum Phase {
    /// Asking whether the current temporary-path candidate is taken.
    Probing,
    /// Creating the temporary file.
    Creating,
    /// Waiting for the next chunk of the input stream.
    Reading,
    /// Writing the chunk just read to the temporary file.
    Writing,
    /// Flushing and closing the temporary file.
    Closing,
    /// Renaming the temporary file onto the destination.
    Renaming,
    /// Rename failed: copying the temporary file's bytes to the destination.
    Copying,
    /// Copy succeeded: deleting the now-redundant temporary file.
    Deleting,
    /// The operation is over; `failure` tells how it ended.
    Finished,
}

/// The next thing the caller must do.
#[derive(Clone, Copy, Debug, PartialEq, Eq, Structural)]
pub enum Action {
    /// Check whether a file exists at `temp`.
    Probe,
    /// Create a new empty file at `temp`.
    CreateTemp,
    /// Read the next chunk (any nonzero size) from the input stream.
    ReadChunk,
    /// Write bytes from `pending[sent..]` to the temporary file; the
    /// writer may accept any nonzero prefix, and the remainder is
    /// resubmitted until the whole chunk is flushed.
    WriteChunk,
    /// Flush and close the temporary file.
    CloseTemp,
    /// Rename `temp` onto `dest`.
    Rename,
    /// Copy the temporary file's bytes onto `dest`.
    CopyToDest,
    /// Delete the temporary file.
    DeleteTemp,
    /// Nothing: the operation is finished.
    Finish,
}

/// The outcome of the action the caller just performed.
#[derive(Debug)]
pub enum Event {
    /// A file exists at the probed candidate path.
    ProbeOccupied,
    /// No file exists at the probed candidate path.
    ProbeFree,
    CreateOk,
    CreateErr,
    /// The stream yielded these bytes (at least one; a zero-byte read is
    /// reported as `ReadEof`).
    Read(Vec<u8>),
    /// The stream reported clean end-of-stream.
    ReadEof,
    ReadErr,
    /// The writer accepted this many bytes of the pending chunk.
    Wrote(usize),
    WriteErr,
    Closed,
    RenameOk,
    RenameErr,
    CopyOk,
    CopyErr,
    DeleteOk,
    DeleteErr,
}

/// One atomic-replace operation over destination path `dest`.
pub struct Rewrite {
    /// The destination path.
    pub dest: Vec<u8>,
    /// The current temporary-path candidate; fixed once probed free.
    pub temp: Vec<u8>,
    /// How many candidates were already taken.
    pub num: u64,
    /// The chunk being transferred to the temporary file.
    pub pending: Vec<u8>,
    /// How many bytes of `pending` the writer has accepted so far.
    pub sent: usize,
    pub phase: Phase,
    /// How the operation ended; meaningful once `phase` is `Finished`
    /// (`None` means success).
    pub failure: Option<ErrorKind>,
    /// Model: all bytes taken from the input stream, in order.
    pub consumed: Ghost<Seq<u8>>,
    /// Model: whether end-of-stream was reached.
    pub eof: Ghost<bool>,
    /// Model: whether a file currently exists at the temporary path.
    pub temp_exists: Ghost<bool>,
    /// Model: the temporary file's contents while it exists.
    pub staged: Ghost<Seq<u8>>,
    /// Model: the destination file.
    pub dest_file: Ghost<DestFile>,
    /// Whether the copy fallback was ever attempted.
    pub copy_tried: Ghost<bool>,
    /// Model: every candidate path a probe found occupied.
    pub rejected: Ghost<Set<Seq<u8>>>,
}

/// The candidate paths rejected after `num` probes of destination `p`.
pub open spec fn rejected_upto(p: Seq<u8>, num: nat) -> Set<Seq<u8>> {
    Set::new(|q: Seq<u8>| exists|k: nat| k < num && q == temp_name(p, k))
}

impl Rewrite {
    /// Protocol invariant: what must hold of the model in each phase.
    pub open spec fn inv(self) -> bool {
        &&& valid_dest(self.dest@)
        &&& self.temp@ == temp_name(self.dest@, self.num as nat)
        &&& (self.phase == Phase::Probing ==> self.rejected@ == rejected_upto(
            self.dest@,
            self.num as nat,
        ))
        &&& (self.phase != Phase::Probing ==> !self.rejected@.contains(self.temp@))
        &&& match self.phase {
            Phase::Probing | Phase::Creating => {
                &&& !self.temp_exists@
                &&& self.dest_file@ == DestFile::Untouched
                &&& self.consumed@ == Seq::<u8>::empty()
                &&& self.staged@ == Seq::<u8>::empty()
                &&& !self.eof@
                &&& !self.copy_tried@
                &&& self.failure is None
                &&& self.pending@ == Seq::<u8>::empty()
                &&& self.sent == 0
            },
            Phase::Reading => {
                &&& self.temp_exists@
                &&& self.staged@ == self.consumed@
                &&& self.dest_file@ == DestFile::Untouched
                &&& !self.eof@
                &&& !self.copy_tried@
                &&& self.failure is None
                &&& self.pending@ == Seq::<u8>::empty()
                &&& self.sent == 0
            },
            Phase::Writing => {
                &&& self.temp_exists@
                &&& self.sent <= self.pending@.len()
                &&& self.staged@ + self.pending@.skip(self.sent as int) == self.consumed@
                &&& self.dest_file@ == DestFile::Untouched
                &&& !self.eof@
                &&& !self.copy_tried@
                &&& self.failure is None
            },
            Phase::Closing | Phase::Renaming => {
                &&& self.temp_exists@
                &&& self.staged@ == self.consumed@
                &&& self.dest_file@ == DestFile::Untouched
                &&& self.eof@
                &&& !self.copy_tried@
                &&& self.failure is None
            },
            Phase::Copying => {
                &&& self.temp_exists@
                &&& self.staged@ == self.consumed@
                &&& self.dest_file@ == DestFile::Untouched
                &&& self.eof@
                &&& self.copy_tried@
                &&& self.failure is None
            },
            Phase::Deleting => {
                &&& self.temp_exists@
                &&& self.staged@ == self.consumed@
                &&& self.dest_file@ == DestFile::Holds(self.consumed@)
                &&& self.eof@
                &&& self.copy_tried@
                &&& self.failure is None
            },
            Phase::Finished => match self.failure {
                None => {
                    &&& self.dest_file@ == DestFile::Holds(self.consumed@)
                    &&& self.eof@
                    &&& !self.temp_exists@
                },
                Some(ErrorKind::CleanupFailed) => {
                    &&& self.dest_file@ == DestFile::Holds(self.consumed@)
                    &&& self.eof@
                    &&& self.copy_tried@
                    &&& self.temp_exists@
                    &&& self.staged@ == self.consumed@
                },
                Some(ErrorKind::CommitFailed) => {
                    &&& self.dest_file@ == DestFile::Unknown
                    &&& self.eof@
                    &&& self.copy_tried@
                    &&& self.temp_exists@
                    &&& self.staged@ == self.consumed@
                },
                Some(ErrorKind::CreateFailed) => {
                    &&& self.dest_file@ == DestFile::Untouched
                    &&& !self.temp_exists@
                    &&& !self.copy_tried@
                },
                Some(ErrorKind::ReadFailed) => {
                    &&& self.dest_file@ == DestFile::Untouched
                    &&& self.temp_exists@
                    &&& self.staged@ == self.consumed@
                    &&& !self.copy_tried@
                },
                Some(ErrorKind::WriteFailed) => {
                    &&& self.dest_file@ == DestFile::Untouched
                    &&& self.temp_exists@
                    &&& self.sent <= self.pending@.len()
                    &&& self.staged@ + self.pending@.skip(self.sent as int) == self.consumed@
                    &&& !self.copy_tried@
                },
                Some(ErrorKind::InvalidPath) => false,
            },
        }
    }

    /// Which events the machine can take in its current phase.
    pub open spec fn accepts(self, e: Event) -> bool {
        match self.phase {
            Phase::Probing => (e is ProbeFree) || ((e is ProbeOccupied) && self.num
                < u64::MAX),
            Phase::Creating => (e is CreateOk) || (e is CreateErr),
            Phase::Reading => match e {
                // a zero-byte read is end-of-stream, never an empty chunk
                Event::Read(v) => v@.len() > 0,
                Event::ReadEof | Event::ReadErr => true,
                _ => false,
            },
            Phase::Writing => match e {
                Event::Wrote(n) => 1 <= n && self.sent + n <= self.pending@.len(),
                Event::WriteErr => true,
                _ => false,
            },
            Phase::Closing => e is Closed,
            Phase::Renaming => (e is RenameOk) || (e is RenameErr),
            Phase::Copying => (e is CopyOk) || (e is CopyErr),
            Phase::Deleting => (e is DeleteOk) || (e is DeleteErr),
            Phase::Finished => false,
        }
    }

    /// The action the current phase calls for.
    pub open spec fn action_of(self) -> Action {
        match self.phase {
            Phase::Probing => Action::Probe,
            Phase::Creating => Action::CreateTemp,
            Phase::Reading => Action::ReadChunk,
            Phase::Writing => Action::WriteChunk,
            Phase::Closing => Action::CloseTemp,
            Phase::Renaming => Action::Rename,
            Phase::Copying => Action::CopyToDest,
            Phase::Deleting => Action::DeleteTemp,
            Phase::Finished => Action::Finish,
        }
    }

    /// Starts a replace operation on `dest`.
    ///
    /// Succeeds exactly when `dest` has a usable file-name component; a
    /// directory-like path is rejected with `InvalidPath` before any file
    /// is created anywhere.
    pub fn new(dest: Vec<u8>) -> (r: Result<Rewrite, ErrorKind>)
        ensures
            (r is Ok) <==> valid_dest(dest@),
            r matches Err(k) ==> k == ErrorKind::InvalidPath,
            r matches Ok(m) ==> {
                &&& m.inv()
                &&& m.dest@ == dest@
                &&& m.phase == Phase::Probing
                &&& m.num == 0
                &&& m.temp@ == temp_name(dest@, 0)
                &&& m.consumed@ == Seq::<u8>::empty()
                &&& m.dest_file@ == DestFile::Untouched
                &&& !m.temp_exists@
                &&& !m.copy_tried@
                &&& m.failure is None
            },
    {
        if !is_valid_dest(&dest) {
            return Err(ErrorKind::InvalidPath);
        }
        let temp = temp_candidate(&dest, 0);
        proof {
            assert(Set::<Seq<u8>>::empty() =~= rejected_upto(dest@, 0));
        }
        Ok(
            Rewrite {
                dest,
                temp,
                num: 0,
                pending: Vec::new(),
                sent: 0,
                phase: Phase::Probing,
                failure: None,
                consumed: Ghost(Seq::empty()),
                eof: Ghost(false),
                temp_exists: Ghost(false),
                staged: Ghost(Seq::empty()),
                dest_file: Ghost(DestFile::Untouched),
                copy_tried: Ghost(false),
                rejected: Ghost(Set::empty()),
            },
        )
    }

    /// The action the caller must perform next.
    pub fn next_action(&self) -> (a: Action)
        ensures
            a == self.action_of(),
    {
        match self.phase {
            Phase::Probing => Action::Probe,
            Phase::Creating => Action::CreateTemp,
            Phase::Reading => Action::ReadChunk,
            Phase::Writing => Action::WriteChunk,
            Phase::Closing => Action::CloseTemp,
            Phase::Renaming => Action::Rename,
            Phase::Copying => Action::CopyToDest,
            Phase::Deleting => Action::DeleteTemp,
            Phase::Finished => Action::Finish,
        }
    }

    /// Takes the outcome of the action just performed and moves the
    /// protocol forward. The ensures clauses pin the whole transition: how
    /// the phase, the retry counter, the pending chunk, the outcome, and
    /// every model field change for each event.
    pub fn step(&mut self, e: Event)
        requires
            old(self).inv(),
            old(self).accepts(e),
        ensures
            final(self).inv(),
            final(self).dest@ == old(self).dest@,
            final(self).phase == (match e {
                Event::ProbeOccupied => Phase::Probing,
                Event::ProbeFree => Phase::Creating,
                Event::CreateOk => Phase::Reading,
                Event::Read(_) => Phase::Writing,
                Event::Wrote(n) => if old(self).sent + n == old(self).pending@.len() {
                    Phase::Reading
                } else {
                    Phase::Writing
                },
                Event::ReadEof => Phase::Closing,
                Event::Closed => Phase::Renaming,
                Event::RenameErr => Phase::Copying,
                Event::CopyOk => Phase::Deleting,
                Event::CreateErr | Event::ReadErr | Event::WriteErr | Event::RenameOk
                    | Event::CopyErr | Event::DeleteOk | Event::DeleteErr => Phase::Finished,
            }),
            final(self).failure == (match e {
                Event::CreateErr => Some(ErrorKind::CreateFailed),
                Event::ReadErr => Some(ErrorKind::ReadFailed),
                Event::WriteErr => Some(ErrorKind::WriteFailed),
                Event::CopyErr => Some(ErrorKind::CommitFailed),
                Event::DeleteErr => Some(ErrorKind::CleanupFailed),
                _ => old(self).failure,
            }),
            final(self).num == (if e is ProbeOccupied {
                old(self).num + 1
            } else {
                old(self).num as int
            }),
            final(self).temp@ == temp_name(old(self).dest@, final(self).num as nat),
            final(self).consumed@ == (match e {
                Event::Read(v) => old(self).consumed@ + v@,
                _ => old(self).consumed@,
            }),
            final(self).pending@ == (match e {
                Event::Read(v) => v@,
                Event::Wrote(n) => if old(self).sent + n == old(self).pending@.len() {
                    Seq::<u8>::empty()
                } else {
                    old(self).pending@
                },
                _ => old(self).pending@,
            }),
            final(self).sent == (match e {
                Event::Wrote(n) => if old(self).sent + n == old(self).pending@.len() {
                    0
                } else {
                    old(self).sent + n
                },
                _ => old(self).sent as int,
            }),
            final(self).staged@ == (match e {
                Event::CreateOk => Seq::<u8>::empty(),
                Event::Wrote(n) => old(self).staged@ + old(self).pending@.subrange(
                    old(self).sent as int,
                    old(self).sent + n,
                ),
                _ => old(self).staged@,
            }),
            final(self).temp_exists@ == (match e {
                Event::CreateOk => true,
                Event::RenameOk | Event::DeleteOk => false,
                _ => old(self).temp_exists@,
            }),
            final(self).dest_file@ == (match e {
                Event::RenameOk | Event::CopyOk => DestFile::Holds(old(self).consumed@),
                Event::CopyErr => DestFile::Unknown,
                _ => old(self).dest_file@,
            }),
            final(self).eof@ == ((e is ReadEof) || old(self).eof@),
            final(self).copy_tried@ == ((e is RenameErr) || old(self).copy_tried@),
            final(self).rejected@ == (if e is ProbeOccupied {
                old(self).rejected@.insert(old(self).temp@)
            } else {
                old(self).rejected@
            }),
    {
        match e {
            Event::ProbeOccupied => {
                proof {
                    let p = self.dest@;
                    let n: nat = self.num as nat;
                    let bigger = rejected_upto(p, n + 1);
                    let smaller = self.rejected@;
                    assert forall|q: Seq<u8>| bigger.contains(q) implies smaller.insert(
                        self.temp@,
                    ).contains(q) by {
                        let k = choose|k: nat| k < n + 1 && q == temp_name(p, k);
                        if k < n {
                            assert(smaller.contains(q));
                        }
                    }
                    assert forall|q: Seq<u8>| smaller.insert(self.temp@).contains(q) implies bigger
                        .contains(q) by {
                        if smaller.contains(q) {
                            let k = choose|k: nat| k < n && q == temp_name(p, k);
                            assert(k < n + 1 && q == temp_name(p, k));
                        } else {
                            assert(q == temp_name(p, n));
                            assert(n < n + 1);
                        }
                    }
                    assert(smaller.insert(self.temp@) =~= bigger);
                }
                self.rejected = Ghost(self.rejected@.insert(self.temp@));
                self.num = self.num + 1;
                self.temp = temp_candidate(&self.dest, self.num);
            },
            Event::ProbeFree => {
                proof {
                    let p = self.dest@;
                    let n: nat = self.num as nat;
                    assert forall|k: nat| k < n implies temp_name(p, k) != temp_name(p, n) by {
                        lemma_temp_name_injective(p, k, n);
                    }
                    assert(!self.rejected@.contains(self.temp@));
                }
                self.phase = Phase::Creating;
            },
            Event::CreateOk => {
                self.phase = Phase::Reading;
                self.temp_exists = Ghost(true);
                self.staged = Ghost(Seq::empty());
            },
            Event::CreateErr => {
                self.phase = Phase::Finished;
                self.failure = Some(ErrorKind::CreateFailed);
            },
            Event::Read(v) => {
                self.consumed = Ghost(self.consumed@ + v@);
                self.pending = v;
                self.phase = Phase::Writing;
                proof {
                    assert(self.pending@.skip(0) =~= self.pending@);
                }
            },
            Event::ReadEof => {
                self.eof = Ghost(true);
                self.phase = Phase::Closing;
            },
            Event::ReadErr => {
                self.phase = Phase::Finished;
                self.failure = Some(ErrorKind::ReadFailed);
            },
            Event::Wrote(n) => {
                let ghost pre = *self;
                let total: usize = self.pending.len();
                proof {
                    assert((pre.staged@ + pre.pending@.subrange(pre.sent as int, pre.sent + n))
                        + pre.pending@.skip(pre.sent + n) =~= pre.staged@ + pre.pending@.skip(
                        pre.sent as int,
                    ));
                }
                self.staged = Ghost(
                    self.staged@ + self.pending@.subrange(self.sent as int, self.sent + n),
                );
                self.sent = self.sent + n;
                if self.sent == total {
                    proof {
                        assert(self.pending@.skip(self.sent as int) =~= Seq::<u8>::empty());
                    }
                    self.pending = Vec::new();
                    self.sent = 0;
                    self.phase = Phase::Reading;
                }
            },
            Event::WriteErr => {
                self.phase = Phase::Finished;
                self.failure = Some(ErrorKind::WriteFailed);
            },
            Event::Closed => {
                self.phase = Phase::Renaming;
            },
            Event::RenameOk => {
                self.dest_file = Ghost(DestFile::Holds(self.consumed@));
                self.temp_exists = Ghost(false);
                self.phase = Phase::Finished;
                self.failure = None;
            },
            Event::RenameErr => {
                self.copy_tried = Ghost(true);
                self.phase = Phase::Copying;
            },
            Event::CopyOk => {
                self.dest_file = Ghost(DestFile::Holds(self.consumed@));
                self.phase = Phase::Deleting;
            },
            Event::CopyErr => {
                self.dest_file = Ghost(DestFile::Unknown);
                self.phase = Phase::Finished;
                self.failure = Some(ErrorKind::CommitFailed);
            },
            Event::DeleteOk => {
                self.temp_exists = Ghost(false);
                self.phase = Phase::Finished;
                self.failure = None;
            },
            Event::DeleteErr => {
                self.phase = Phase::Finished;
                self.failure = Some(ErrorKind::CleanupFailed);
            },
        }
    }
}

/// Atomicity on the rename path: as long as no copy fallback has been
/// attempted, the destination either still holds its original contents or
/// holds exactly the bytes consumed from the input — never a partial mix —
/// and it holds the new bytes only after the whole stream was consumed.
/// Staging writes cannot alter the destination because the staging path
/// never equals the destination path
/// (`crate::resolve::lemma_temp_name_differs`).
pub proof fn lemma_rename_path_atomicity(m: Rewrite)
    requires
        m.inv(),
        !m.copy_tried@,
    ensures
        m.dest_file@ == DestFile::Untouched || m.dest_file@ == DestFile::Holds(m.consumed@),
        m.dest_file@ == DestFile::Holds(m.consumed@) ==> m.eof@,
{
}

/// Completeness: whenever the operation ends successfully (or with the one
/// non-fatal failure, `CleanupFailed`), the destination holds exactly the
/// bytes consumed from the input stream, in order, and the whole stream was
/// consumed.
pub proof fn lemma_completeness(m: Rewrite)
    requires
        m.inv(),
        m.phase == Phase::Finished,
        m.failure is None || m.failure == Some(ErrorKind::CleanupFailed),
    ensures
        m.dest_file@ == DestFile::Holds(m.consumed@),
        m.eof@,
{
}

/// Cross-device fallback: when the operation ends successfully after the
/// copy fallback was attempted, the destination holds the consumed bytes
/// and the temporary file is gone.
pub proof fn lemma_fallback_commits(m: Rewrite)
    requires
        m.inv(),
        m.phase == Phase::Finished,
        m.failure is None,
        m.copy_tried@,
    ensures
        m.dest_file@ == DestFile::Holds(m.consumed@),
        !m.temp_exists@,
{
}

/// Distinctness of resolution: once the resolver has settled (the machine
/// has moved past probing), the staging path differs from every path a
/// probe of this operation found occupied. A second invocation that finds
/// the first invocation's staging file still on disk therefore settles on a
/// distinct path; and distinct retry counts give distinct paths in any case
/// (`lemma_temp_name_injective`).
pub proof fn lemma_resolution_distinct(m: Rewrite, p: Seq<u8>)
    requires
        m.inv(),
        m.phase != Phase::Probing,
        m.rejected@.contains(p),
    ensures
        m.temp@ != p,
{
}

/// Rejection of a directory-like destination precedes every side effect:
/// `new` returns `InvalidPath` exactly when the destination has no usable
/// file name (its ensures state both directions) and then yields no
/// machine at all, while a machine that has not yet received `CreateOk` —
/// every machine still probing or creating — targets a valid destination,
/// has staged no file, consumed no input, and left the destination
/// untouched. So when validation fails, no file has been created anywhere.
pub proof fn lemma_invalid_path_precedes_creation(m: Rewrite)
    requires
        m.inv(),
        m.phase == Phase::Probing || m.phase == Phase::Creating,
    ensures
        valid_dest(m.dest@),
        !m.temp_exists@,
        m.dest_file@ == DestFile::Untouched,
        m.consumed@ == Seq::<u8>::empty(),
{
}

/// A failure before the commit leaves the destination untouched.
pub proof fn lemma_failure_preserves_destination(m: Rewrite)
    requires
        m.inv(),
        m.phase == Phase::Finished,
        m.failure == Some(ErrorKind::CreateFailed) || m.failure == Some(ErrorKind::ReadFailed)
            || m.failure == Some(ErrorKind::WriteFailed),
    ensures
        m.dest_file@ == DestFile::Untouched,
{
}

} // verus!
