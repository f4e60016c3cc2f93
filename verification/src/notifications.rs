//! Desktop notification inhibition ("do not disturb") through the
//! freedesktop notification service. The caller talks to the session bus;
//! this module keeps the token of the inhibition that OyasumiVR holds and
//! decides what each reply means.
use vstd::prelude::*;

verus! {

/// Whether desktop notifications are currently inhibited, and by whom.
#[derive(PartialEq, Eq, Clone, Copy, Debug, Structural)]
pub enum IsInhibited {
    NO,
    ByOyasumi,
    ByOther,
    Unknown,
}

impl IsInhibited {
    /// The number under which the user interface receives the state.
    pub fn code(self) -> (res: u8)
        ensures
            res == match self {
                IsInhibited::NO => 0u8,
                IsInhibited::ByOyasumi => 1u8,
                IsInhibited::ByOther => 2u8,
                IsInhibited::Unknown => 3u8,
            },
    {
        match self {
            IsInhibited::NO => 0,
            IsInhibited::ByOyasumi => 1,
            IsInhibited::ByOther => 2,
            IsInhibited::Unknown => 3,
        }
    }
}

/// The outcome of one call on the session bus.
#[derive(PartialEq, Eq, Clone, Copy, Debug, Structural)]
pub enum BusReply<T> {
    /// There is no connection to the session bus.
    NotConnected,
    /// The call was made and failed.
    Failed,
    /// The call was made and answered.
    Answered(T),
}

/// The token that stands for "no inhibition of ours".
pub open spec fn no_token() -> u32 {
    u32::MAX
}

/// What a read of the service's `Inhibited` property means, and the token
/// held afterwards: not inhibited forgets our token; inhibited is ours when we
/// hold a token and someone else's otherwise; a failed read forgets our token
/// and is unknown; without a connection nothing changes.
pub open spec fn query_outcome(token: u32, reply: BusReply<bool>) -> (IsInhibited, u32) {
    match reply {
        BusReply::NotConnected => (IsInhibited::Unknown, token),
        BusReply::Failed => (IsInhibited::Unknown, no_token()),
        BusReply::Answered(false) => (IsInhibited::NO, no_token()),
        BusReply::Answered(true) => if token == no_token() {
            (IsInhibited::ByOther, token)
        } else {
            (IsInhibited::ByOyasumi, token)
        },
    }
}

/// What the answer to an `Inhibit` call means, and the token held afterwards:
/// the returned handle becomes our token; a failed call leaves us without one.
pub open spec fn inhibit_outcome(token: u32, reply: BusReply<u32>) -> (bool, u32) {
    match reply {
        BusReply::NotConnected => (false, token),
        BusReply::Failed => (false, no_token()),
        BusReply::Answered(h) => (true, h),
    }
}

/// The inhibition token that OyasumiVR holds; `u32::MAX` when it holds none.
pub struct InhibitState {
    pub token: u32,
}

impl InhibitState {
    /// No inhibition held.
    pub fn new() -> (res: InhibitState)
        ensures
            res.token == no_token(),
    {
        InhibitState { token: u32::MAX }
    }

    /// Interprets a read of the `Inhibited` property (see `query_outcome`).
    pub fn is_inibited(&mut self, reply: BusReply<bool>) -> (res: IsInhibited)
        ensures
            (res, final(self).token) == query_outcome(old(self).token, reply),
            reply == BusReply::<bool>::Answered(false) ==> res == IsInhibited::NO && final(self).token
                == u32::MAX,
            reply == BusReply::<bool>::Answered(true) ==> final(self).token == old(self).token && (res
                == IsInhibited::ByOyasumi <==> old(self).token != u32::MAX) && (res
                == IsInhibited::ByOther <==> old(self).token == u32::MAX),
            reply == BusReply::<bool>::Failed ==> res == IsInhibited::Unknown && final(self).token
                == u32::MAX,
            reply == BusReply::<bool>::NotConnected ==> res == IsInhibited::Unknown && final(self).token
                == old(self).token,
    {
        match reply {
            BusReply::NotConnected => IsInhibited::Unknown,
            BusReply::Failed => {
                self.token = u32::MAX;
                IsInhibited::Unknown
            },
            BusReply::Answered(v) => {
                if !v {
                    self.token = u32::MAX;
                    IsInhibited::NO
                } else if self.token == u32::MAX {
                    IsInhibited::ByOther
                } else {
                    IsInhibited::ByOyasumi
                }
            },
        }
    }

    /// Records the answer to an `Inhibit` call (see `inhibit_outcome`) and
    /// returns whether the call succeeded.
    pub fn inhibit(&mut self, reply: BusReply<u32>) -> (res: bool)
        ensures
            (res, final(self).token) == inhibit_outcome(old(self).token, reply),
            res <==> reply is Answered,
            reply matches BusReply::Answered(h) ==> final(self).token == h,
            reply == BusReply::<u32>::Failed ==> final(self).token == u32::MAX,
            reply == BusReply::<u32>::NotConnected ==> final(self).token == old(self).token,
    {
        match reply {
            BusReply::NotConnected => false,
            BusReply::Failed => {
                self.token = u32::MAX;
                false
            },
            BusReply::Answered(h) => {
                self.token = h;
                true
            },
        }
    }

    /// The token to pass to an `UnInhibit` call.
    pub fn un_inhibit_token(&self) -> (res: u32)
        ensures
            res == self.token,
    {
        self.token
    }

    /// Whether an `UnInhibit` call succeeded. The token is kept either way:
    /// the next read of the `Inhibited` property settles it.
    pub fn un_inhibit(&self, reply: BusReply<()>) -> (res: bool)
        ensures
            res <==> reply is Answered,
    {
        match reply {
            BusReply::Answered(_) => true,
            _ => false,
        }
    }
}

/// What a read of the `Inhibited` property means, whatever token is held: a
/// report of no inhibition is `NO` and forgets the token; a report of
/// inhibition is ours exactly when a token is held, someone else's exactly
/// when none is, and keeps the token; a failed read is unknown and forgets
/// the token; no connection is unknown and keeps it.
pub proof fn law_query_meanings(token: u32)
    ensures
        query_outcome(token, BusReply::Answered(false)) == (IsInhibited::NO, u32::MAX),
        query_outcome(token, BusReply::Answered(true)).1 == token,
        query_outcome(token, BusReply::Answered(true)).0 == IsInhibited::ByOyasumi <==> token
            != u32::MAX,
        query_outcome(token, BusReply::Answered(true)).0 == IsInhibited::ByOther <==> token
            == u32::MAX,
        query_outcome(token, BusReply::Failed) == (IsInhibited::Unknown, u32::MAX),
        query_outcome(token, BusReply::NotConnected) == (IsInhibited::Unknown, token),
{
}

/// An `Inhibit` call succeeds exactly when it is answered, and the answer
/// becomes the token held.
pub proof fn law_inhibit_meanings(token: u32, h: u32)
    ensures
        inhibit_outcome(token, BusReply::Answered(h)) == (true, h),
        inhibit_outcome(token, BusReply::Failed) == (false, u32::MAX),
        inhibit_outcome(token, BusReply::NotConnected) == (false, token),
{
}

/// Once an `Inhibit` call has returned a real handle, the service reporting
/// inhibition means that OyasumiVR inhibits.
pub proof fn law_inhibit_then_inhibited_is_ours(token: u32, h: u32)
    requires
        h != no_token(),
    ensures
        query_outcome(inhibit_outcome(token, BusReply::Answered(h)).1, BusReply::Answered(true)).0
            == IsInhibited::ByOyasumi,
{
}

/// The token held after a series of reads of the `Inhibited` property, in
/// order, starting from `token`.
pub open spec fn token_after_reads(token: u32, reads: Seq<BusReply<bool>>) -> u32
    decreases reads.len(),
{
    if reads.len() == 0 {
        token
    } else {
        query_outcome(token_after_reads(token, reads.drop_last()), reads.last()).1
    }
}

/// Reads without a connection, and reads that report inhibition, keep the
/// token held.
pub proof fn lemma_reads_keep_token(token: u32, reads: Seq<BusReply<bool>>)
    requires
        forall|i: int|
            0 <= i < reads.len() ==> #[trigger] reads[i] == BusReply::<bool>::NotConnected
                || reads[i] == BusReply::Answered(true),
    ensures
        token_after_reads(token, reads) == token,
    decreases reads.len(),
{
    if reads.len() > 0 {
        lemma_reads_keep_token(token, reads.drop_last());
        assert(reads.last() == reads[reads.len() - 1]);
    }
}

/// Once an `Inhibit` call has returned a real handle, the inhibition stays
/// OyasumiVR's through any reads made without a connection or reporting
/// inhibition: a further report of inhibition is still ours.
pub proof fn law_inhibition_stays_ours(token: u32, h: u32, reads: Seq<BusReply<bool>>)
    requires
        h != no_token(),
        forall|i: int|
            0 <= i < reads.len() ==> #[trigger] reads[i] == BusReply::<bool>::NotConnected
                || reads[i] == BusReply::Answered(true),
    ensures
        token_after_reads(inhibit_outcome(token, BusReply::Answered(h)).1, reads) == h,
        query_outcome(
            token_after_reads(inhibit_outcome(token, BusReply::Answered(h)).1, reads),
            BusReply::Answered(true),
        ).0 == IsInhibited::ByOyasumi,
{
    lemma_reads_keep_token(h, reads);
}

/// Once the service has reported no inhibition, a later report of inhibition
/// (with no `Inhibit` call in between) is someone else's.
pub proof fn law_cleared_then_inhibited_is_other(token: u32)
    ensures
        query_outcome(query_outcome(token, BusReply::Answered(false)).1, BusReply::Answered(true)).0
            == IsInhibited::ByOther,
{
}

/// A failed `Inhibit` call leaves OyasumiVR without an inhibition: a report of
/// inhibition is then someone else's.
pub proof fn law_failed_inhibit_is_not_ours(token: u32)
    ensures
        query_outcome(inhibit_outcome(token, BusReply::Failed).1, BusReply::Answered(true)).0
            == IsInhibited::ByOther,
{
}

} // verus!
