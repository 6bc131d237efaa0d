//! Single-flight admission of uploads: at most one upload at a time for each
//! client identity.

use vstd::prelude::*;
use std::collections::HashSet;
use crate::config::Level;
use crate::error_handling::{AppError, LogRecord, StatusCode};
use crate::ip_prefix::{lemma_key_injective, IpPrefix};

verus! {

/// The identities that are uploading right now.
pub struct UploadGuard {
    uploading: HashSet<u128>,
}

/// The right to one upload, held from admission until the upload has ended
/// in whatever way. It cannot be copied, and ending the upload consumes it.
#[derive(Debug)]
pub struct UploadToken {
    identity: IpPrefix,
}

impl View for UploadGuard {
    type V = Set<IpPrefix>;

    /// The identities that are uploading.
    closed spec fn view(&self) -> Set<IpPrefix> {
        Set::new(|p: IpPrefix| self.uploading@.contains(p.key()))
    }
}

impl UploadToken {
    /// The identity that the token was given to.
    pub closed spec fn holder(&self) -> IpPrefix {
        self.identity
    }

    /// The identity that the token was given to.
    pub fn identity(&self) -> (p: IpPrefix)
        ensures
            p == self.holder(),
    {
        self.identity
    }
}

impl UploadGuard {
    /// A guard with nobody uploading.
    pub fn new() -> (g: UploadGuard)
        ensures
            g@ == Set::<IpPrefix>::empty(),
    {
        let g = UploadGuard { uploading: HashSet::new() };
        assert(g@ =~= Set::<IpPrefix>::empty());
        g
    }

    /// Whether `identity` is uploading.
    pub fn is_uploading(&self, identity: &IpPrefix) -> (b: bool)
        ensures
            b == self@.contains(*identity),
    {
        let key = identity.to_key();
        self.uploading.contains(&key)
    }

    /// Enters `identity` among the uploading ones unless it is there already,
    /// test and entry being one step. Returns whether it was entered.
    pub fn try_enter(&mut self, identity: IpPrefix) -> (entered: bool)
        ensures
            entered == !old(self)@.contains(identity),
            final(self)@ == old(self)@.insert(identity),
    {
        let key = identity.to_key();
        let entered = self.uploading.insert(key);
        proof {
            assert forall|p: IpPrefix| p.key() == key implies p == identity by {
                lemma_key_injective(p, identity);
            }
            assert(self@ =~= old(self)@.insert(identity));
        }
        entered
    }

    /// Takes `identity` out of the uploading ones. Returns whether it was
    /// among them; taking out an absent identity changes nothing.
    pub fn leave(&mut self, identity: IpPrefix) -> (was_present: bool)
        ensures
            was_present == old(self)@.contains(identity),
            final(self)@ == old(self)@.remove(identity),
    {
        let key = identity.to_key();
        let was_present = self.uploading.remove(&key);
        proof {
            assert forall|p: IpPrefix| p.key() == key implies p == identity by {
                lemma_key_injective(p, identity);
            }
            assert(self@ =~= old(self)@.remove(identity));
        }
        was_present
    }

    /// Admits an upload of `identity` unless one is under way, and hands out
    /// the token that ends it.
    pub fn begin_upload(&mut self, identity: IpPrefix) -> (r: Result<UploadToken, AppError>)
        ensures
            r is Ok <==> !old(self)@.contains(identity),
            final(self)@ == old(self)@.insert(identity),
            r is Ok ==> r->Ok_0.holder() == identity,
            r is Err ==> r->Err_0.status_code == StatusCode::TOO_MANY_REQUESTS && r->Err_0.message@
                == "you are already uploading a file, please wait"@,
    {
        if self.try_enter(identity) {
            Ok(UploadToken { identity })
        } else {
            AppError::err(
                StatusCode::TOO_MANY_REQUESTS,
                "you are already uploading a file, please wait",
            )
        }
    }

    /// Ends the upload that the token stands for, on whatever path the upload
    /// came to its end. Returns `false` where the holder was not among the
    /// uploading identities, which is an anomaly to be logged.
    pub fn end_upload(&mut self, token: UploadToken) -> (was_present: bool)
        ensures
            was_present == old(self)@.contains(token.holder()),
            final(self)@ == old(self)@.remove(token.holder()),
    {
        self.leave(token.identity)
    }
}

/// Keeps track of which identities are uploading: admits the upload of
/// `identity` unless one is under way. The token that comes back is to be
/// handed to [`upload_finished`] on every path on which the upload ends.
pub fn upload_endpoint_wrapper(guard: &mut UploadGuard, identity: IpPrefix) -> (r: Result<
    UploadToken,
    AppError,
>)
    ensures
        r is Ok <==> !old(guard)@.contains(identity),
        final(guard)@ == old(guard)@.insert(identity),
        r is Ok ==> r->Ok_0.holder() == identity,
        r is Err ==> r->Err_0@ == (
            StatusCode::TOO_MANY_REQUESTS,
            "you are already uploading a file, please wait"@,
        ),
{
    guard.begin_upload(identity)
}

/// The message for a token whose holder was not among the uploading
/// identities when its upload ended.
pub open spec fn release_anomaly(holder: IpPrefix) -> Seq<char> {
    "tried to remove "@ + holder.canonical()
        + " from the uploading identities after an upload, but it wasn't in the set"@
}

/// Ends the upload of a token and gives the line to log where the holder was
/// not among the uploading identities: an anomaly, and no reason to fail.
pub fn upload_finished(guard: &mut UploadGuard, token: UploadToken) -> (r: Option<LogRecord>)
    ensures
        final(guard)@ == old(guard)@.remove(token.holder()),
        match r {
            Some(line) => !old(guard)@.contains(token.holder()) && line@ == (
                Level::ERROR,
                release_anomaly(token.holder()),
            ),
            None => old(guard)@.contains(token.holder()),
        },
{
    let holder = token.identity();
    if guard.end_upload(token) {
        None
    } else {
        let mut message = "tried to remove ".to_owned();
        message.append(holder.to_string().as_str());
        message.append(" from the uploading identities after an upload, but it wasn't in the set");
        Some(LogRecord { level: Level::ERROR, message })
    }
}

/// Single flight: of two admissions of one identity with no end between them
/// exactly one succeeds, the first where the identity was not uploading; and
/// once the upload has ended, the next admission succeeds.
pub proof fn lemma_single_flight(uploading: Set<IpPrefix>, id: IpPrefix)
    ensures
        ({
            let first = !uploading.contains(id);
            let after_first = uploading.insert(id);
            let second = !after_first.contains(id);
            let after_second = after_first.insert(id);
            let ended = after_second.remove(id);
            let third = !ended.contains(id);
            &&& !second
            &&& (!uploading.contains(id) ==> first && !second)
            &&& third
        }),
{
}

/// Uploads of different identities do not stand in each other's way.
pub proof fn lemma_identities_independent(uploading: Set<IpPrefix>, a: IpPrefix, b: IpPrefix)
    requires
        a != b,
    ensures
        uploading.insert(a).contains(b) == uploading.contains(b),
        uploading.remove(a).contains(b) == uploading.contains(b),
{
}

} // verus!
