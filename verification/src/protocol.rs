//! Setting a device up: a fixed series of calls into the platform's library,
//! each of which may fail, and the calls that give back what was acquired where
//! one does.

use vstd::prelude::*;

verus! {

/// The calls that set one kind of device up.
pub trait Protocol: Sized {
    /// A call into the platform's library.
    type Call;

    /// What such a call answers.
    type Reply;

    /// The calls that set the device up, in order.
    spec fn calls(&self) -> Seq<Self::Call>;

    /// Whether `reply` to the call at `index` ends the setup.
    spec fn fails(&self, index: int, reply: Self::Reply) -> bool;

    /// The calls that give back what was acquired before the call at `failed`
    /// failed, in order.
    spec fn releases(&self, failed: int) -> Seq<Self::Call>;

    /// Whether the numbers that the call at `index` takes fit their types.
    spec fn in_range(&self, index: int) -> bool;

    /// The call at `index`, if there is one.
    fn call(&self, index: usize) -> (call: Option<Self::Call>)
        requires
            index < self.calls().len() ==> self.in_range(index as int),
        ensures
            call == if index < self.calls().len() {
                Some(self.calls()[index as int])
            } else {
                None::<Self::Call>
            },
    ;

    /// Whether `reply` to the call at `index` ends the setup.
    fn failed(&self, index: usize, reply: &Self::Reply) -> (failed: bool)
        requires
            index < self.calls().len(),
        ensures
            failed == self.fails(index as int, *reply),
    ;

    /// The call at `index` among those that follow the failure of the call at
    /// `failed`, if there is one.
    fn release(&self, failed: usize, index: usize) -> (call: Option<Self::Call>)
        requires
            failed < self.calls().len(),
        ensures
            call == if index < self.releases(failed as int).len() {
                Some(self.releases(failed as int)[index as int])
            } else {
                None::<Self::Call>
            },
            self.releases(failed as int).len() < usize::MAX,
    ;
}

/// What is to be done next.
pub enum Request<C> {
    /// Make this call and hand its answer back.
    Call(C),
    /// Make this call, whose answer does not matter.
    Release(C),
    /// The device is set up.
    Opened,
    /// The setup failed, and all that it acquired is given back.
    Failed,
}

/// How far a setup has come.
#[verifier::ext_equal]
pub struct Progress<R> {
    /// The answers to the calls made so far, in order.
    pub replies: Seq<R>,
    /// Whether the last of them ended the setup.
    pub failed: bool,
    /// How many of the calls that give back have been made.
    pub released: nat,
}

impl<R> Progress<R> {
    /// Nothing has been called yet.
    pub open spec fn start() -> Progress<R> {
        Progress { replies: Seq::empty(), failed: false, released: 0 }
    }

    /// Whether a setup by `protocol` can have come this far.
    pub open spec fn reached<P: Protocol<Reply = R>>(self, protocol: P) -> bool {
        let n = self.replies.len();
        &&& n <= protocol.calls().len()
        &&& self.failed ==> n > 0 && protocol.fails(n - 1, self.replies[n - 1])
        &&& self.failed ==> self.released <= protocol.releases(n - 1).len()
        &&& !self.failed ==> self.released == 0
        &&& forall|i: int|
            0 <= i < (if self.failed {
                n - 1
            } else {
                n as int
            }) ==> !protocol.fails(i, #[trigger] self.replies[i])
    }

    /// What comes next.
    pub open spec fn request<P: Protocol<Reply = R>>(self, protocol: P) -> Request<P::Call> {
        let n = self.replies.len();
        if self.failed {
            let releases = protocol.releases(n - 1);
            if self.released < releases.len() {
                Request::Release(releases[self.released as int])
            } else {
                Request::Failed
            }
        } else if n < protocol.calls().len() {
            Request::Call(protocol.calls()[n as int])
        } else {
            Request::Opened
        }
    }

    /// Whether nothing is left to be done.
    pub open spec fn ended<P: Protocol<Reply = R>>(self, protocol: P) -> bool {
        self.request(protocol) is Opened || self.request(protocol) is Failed
    }

    /// The answer to the last call made: where the setup failed, the one that
    /// ended it.
    pub open spec fn last_reply(self) -> R {
        self.replies.last()
    }

    /// The call just made answered `reply`.
    pub open spec fn answered<P: Protocol<Reply = R>>(self, protocol: P, reply: R) -> Progress<R> {
        Progress {
            replies: self.replies.push(reply),
            failed: protocol.fails(self.replies.len() as int, reply),
            released: 0,
        }
    }

    /// The call that gives back has been made.
    pub open spec fn gave_back(self) -> Progress<R> {
        Progress { released: self.released + 1, ..self }
    }
}

/// A setup under way.
pub struct Opening<P: Protocol> {
    protocol: P,
    replies: Vec<P::Reply>,
    failed: bool,
    released: usize,
}

impl<P: Protocol> Opening<P> {
    /// What is being set up.
    pub closed spec fn spec_protocol(&self) -> P {
        self.protocol
    }

    /// How far it has come.
    pub closed spec fn progress(&self) -> Progress<P::Reply> {
        Progress {
            replies: self.replies@,
            failed: self.failed,
            released: self.released as nat,
        }
    }

    #[verifier::type_invariant]
    spec fn reachable(&self) -> bool {
        self.progress().reached(self.protocol)
    }

    /// Begins the setup.
    pub fn new(protocol: P) -> (opening: Opening<P>)
        ensures
            opening.spec_protocol() == protocol,
            opening.progress() == Progress::<P::Reply>::start(),
    {
        Opening { protocol, replies: Vec::new(), failed: false, released: 0 }
    }

    /// What is being set up.
    pub fn protocol(&self) -> (protocol: &P)
        ensures
            *protocol == self.spec_protocol(),
    {
        &self.protocol
    }

    /// What comes next.
    pub fn request(&self) -> (request: Request<P::Call>)
        requires
            self.progress().request(self.spec_protocol()) is Call
                ==> self.spec_protocol().in_range(self.progress().replies.len() as int),
        ensures
            request == self.progress().request(self.spec_protocol()),
            self.progress().reached(self.spec_protocol()),
    {
        proof {
            use_type_invariant(self);
        }
        if self.failed {
            match self.protocol.release(self.replies.len() - 1, self.released) {
                Some(call) => Request::Release(call),
                None => Request::Failed,
            }
        } else {
            match self.protocol.call(self.replies.len()) {
                Some(call) => Request::Call(call),
                None => Request::Opened,
            }
        }
    }

    /// The call last asked for answered `reply`.
    pub fn answer(self, reply: P::Reply) -> (opening: Opening<P>)
        requires
            self.progress().request(self.spec_protocol()) is Call,
        ensures
            opening.spec_protocol() == self.spec_protocol(),
            opening.progress() == self.progress().answered(self.spec_protocol(), reply),
    {
        proof {
            use_type_invariant(&self);
        }
        let ghost before = self.progress();
        let Opening { protocol, mut replies, failed: _, released: _ } = self;
        let failed = protocol.failed(replies.len(), &reply);
        replies.push(reply);
        proof {
            let after = Progress { replies: replies@, failed, released: 0 };
            assert(after == before.answered(protocol, reply));
            assert forall|i: int| 0 <= i < before.replies.len() implies !protocol.fails(
                i,
                #[trigger] after.replies[i],
            ) by {
                assert(after.replies[i] == before.replies[i]);
            }
        }
        Opening { protocol, replies, failed, released: 0 }
    }

    /// The call last asked for, which gives something back, has been made.
    pub fn give_back(self) -> (opening: Opening<P>)
        requires
            self.progress().request(self.spec_protocol()) is Release,
        ensures
            opening.spec_protocol() == self.spec_protocol(),
            opening.progress() == self.progress().gave_back(),
    {
        proof {
            use_type_invariant(&self);
        }
        let released: usize = match self.protocol.release(self.replies.len() - 1, self.released) {
            Some(_) => self.released + 1,
            None => self.released,
        };
        let Opening { protocol, replies, failed, released: _ } = self;
        Opening { protocol, replies, failed, released }
    }

    /// The answers so far, in order.
    pub fn replies(&self) -> (replies: &Vec<P::Reply>)
        ensures
            replies@ == self.progress().replies,
            self.progress().reached(self.spec_protocol()),
    {
        proof {
            use_type_invariant(self);
        }
        &self.replies
    }

    /// Which call failed, if one did.
    pub fn failure(&self) -> (index: Option<usize>)
        ensures
            index == if self.progress().failed {
                Some((self.progress().replies.len() - 1) as usize)
            } else {
                None::<usize>
            },
            self.progress().failed ==> self.progress().replies.len() > 0,
            self.progress().reached(self.spec_protocol()),
    {
        proof {
            use_type_invariant(self);
        }
        if self.failed {
            Some(self.replies.len() - 1)
        } else {
            None
        }
    }
}

// ---------------------------------------------------------------------------
// Laws
// ---------------------------------------------------------------------------

/// How much of something the first `n` of `calls` leave held, where none of them
/// failed and each changes it by `change`.
pub open spec fn held<C>(calls: Seq<C>, n: nat, change: spec_fn(C) -> int) -> int
    decreases n,
{
    if n == 0 {
        0
    } else {
        held(calls, (n - 1) as nat, change) + change(calls[n - 1])
    }
}

/// What calls leave held depends on them alone, not on those that follow.
pub proof fn lemma_held_prefix<C>(a: Seq<C>, b: Seq<C>, n: nat, change: spec_fn(C) -> int)
    requires
        n <= a.len(),
        n <= b.len(),
        forall|i: int| 0 <= i < n ==> a[i] == b[i],
    ensures
        held(a, n, change) == held(b, n, change),
    decreases n,
{
    if n > 0 {
        lemma_held_prefix(a, b, (n - 1) as nat, change);
    }
}

/// The calls that a setup makes from `at` on, and how it ends, where the call
/// at `i` answers `answers(i)`.
pub open spec fn drive<P: Protocol>(
    protocol: P,
    at: Progress<P::Reply>,
    answers: spec_fn(int) -> P::Reply,
) -> (Seq<P::Call>, Progress<P::Reply>)
    decreases
            (if at.failed {
                0
            } else {
                protocol.calls().len() - at.replies.len() + 1
            }),
            (if at.failed {
                protocol.releases(at.replies.len() - 1).len() - at.released
            } else {
                0
            }),
{
    match at.request(protocol) {
        Request::Call(call) => {
            let n = at.replies.len() as int;
            let (calls, end) = drive(protocol, at.answered(protocol, answers(n)), answers);
            (seq![call] + calls, end)
        },
        Request::Release(call) => {
            let (calls, end) = drive(protocol, at.gave_back(), answers);
            (seq![call] + calls, end)
        },
        Request::Opened => (Seq::empty(), at),
        Request::Failed => (Seq::empty(), at),
    }
}

/// The first call from `from` on whose answer ends the setup, or the number of
/// calls where none does.
pub open spec fn first_failure<P: Protocol>(
    protocol: P,
    answers: spec_fn(int) -> P::Reply,
    from: int,
) -> int
    decreases protocol.calls().len() - from,
{
    if from >= protocol.calls().len() {
        protocol.calls().len() as int
    } else if protocol.fails(from, answers(from)) {
        from
    } else {
        first_failure(protocol, answers, from + 1)
    }
}

proof fn lemma_first_failure<P: Protocol>(
    protocol: P,
    answers: spec_fn(int) -> P::Reply,
    from: int,
)
    requires
        0 <= from <= protocol.calls().len(),
    ensures
        ({
            let k = first_failure(protocol, answers, from);
            &&& from <= k <= protocol.calls().len()
            &&& k < protocol.calls().len() ==> protocol.fails(k, answers(k))
            &&& forall|i: int| from <= i < k ==> !protocol.fails(i, #[trigger] answers(i))
        }),
    decreases protocol.calls().len() - from,
{
    if from < protocol.calls().len() && !protocol.fails(from, answers(from)) {
        lemma_first_failure(protocol, answers, from + 1);
    }
}

proof fn lemma_drive_releases<P: Protocol>(
    protocol: P,
    at: Progress<P::Reply>,
    answers: spec_fn(int) -> P::Reply,
)
    requires
        at.failed,
        at.released <= protocol.releases(at.replies.len() - 1).len(),
    ensures
        drive(protocol, at, answers).0 == protocol.releases(at.replies.len() - 1).skip(
            at.released as int,
        ),
        drive(protocol, at, answers).1 == (Progress {
            released: protocol.releases(at.replies.len() - 1).len(),
            ..at
        }),
    decreases protocol.releases(at.replies.len() - 1).len() - at.released,
{
    let releases = protocol.releases(at.replies.len() - 1);
    if at.released < releases.len() {
        lemma_drive_releases(protocol, at.gave_back(), answers);
        assert(seq![releases[at.released as int]] + releases.skip((at.released + 1) as int)
            =~= releases.skip(at.released as int));
    } else {
        assert(releases.skip(at.released as int) =~= Seq::empty());
    }
}

proof fn lemma_drive_calls<P: Protocol>(
    protocol: P,
    n: nat,
    answers: spec_fn(int) -> P::Reply,
)
    requires
        n <= first_failure(protocol, answers, n as int),
        n <= protocol.calls().len(),
    ensures
        ({
            let at = Progress { replies: Seq::new(n, answers), failed: false, released: 0 };
            let k = first_failure(protocol, answers, n as int);
            let (calls, end) = drive(protocol, at, answers);
            if k < protocol.calls().len() {
                &&& calls == protocol.calls().subrange(n as int, k + 1) + protocol.releases(k)
                &&& end == (Progress {
                    replies: Seq::new((k + 1) as nat, answers),
                    failed: true,
                    released: protocol.releases(k).len(),
                })
            } else {
                &&& calls == protocol.calls().skip(n as int)
                &&& end == (Progress {
                    replies: Seq::new(protocol.calls().len(), answers),
                    failed: false,
                    released: 0,
                })
            }
        }),
    decreases protocol.calls().len() - n,
{
    let at = Progress { replies: Seq::new(n, answers), failed: false, released: 0 };
    let all = protocol.calls();
    let k = first_failure(protocol, answers, n as int);
    lemma_first_failure(protocol, answers, n as int);
    if n < all.len() {
        let next = at.answered(protocol, answers(n as int));
        assert(next.replies =~= Seq::new((n + 1) as nat, answers));
        if protocol.fails(n as int, answers(n as int)) {
            lemma_drive_releases(protocol, next, answers);
            assert(protocol.releases(k).skip(0) =~= protocol.releases(k));
            assert(seq![all[n as int]] =~= all.subrange(n as int, k + 1));
        } else {
            lemma_first_failure(protocol, answers, (n + 1) as int);
            lemma_drive_calls(protocol, (n + 1) as nat, answers);
            if k < all.len() {
                assert(seq![all[n as int]] + (all.subrange((n + 1) as int, k + 1) + protocol.releases(k))
                    =~= all.subrange(n as int, k + 1) + protocol.releases(k));
            } else {
                assert(seq![all[n as int]] + all.skip((n + 1) as int) =~= all.skip(n as int));
            }
        }
    } else {
        assert(all.skip(n as int) =~= Seq::empty());
    }
}

/// A setup makes its calls in order up to the first that fails, then gives back
/// what that failure leaves held, and nothing more; where none fails it makes
/// them all and is open.
pub proof fn law_setup<P: Protocol>(protocol: P, answers: spec_fn(int) -> P::Reply)
    ensures
        ({
            let all = protocol.calls();
            let k = first_failure(protocol, answers, 0);
            let (calls, end) = drive(protocol, Progress::start(), answers);
            if k < all.len() {
                &&& 0 <= k
                &&& protocol.fails(k, answers(k))
                &&& forall|i: int| 0 <= i < k ==> !protocol.fails(i, #[trigger] answers(i))
                &&& calls == all.take(k + 1) + protocol.releases(k)
                &&& end.request(protocol) == Request::<P::Call>::Failed
                &&& end.failed
                &&& end.replies == Seq::new((k + 1) as nat, answers)
                &&& end.last_reply() == answers(k)
            } else {
                &&& forall|i: int|
                    0 <= i < all.len() ==> !protocol.fails(i, #[trigger] answers(i))
                &&& calls == all
                &&& end.request(protocol) == Request::<P::Call>::Opened
                &&& !end.failed
                &&& end.replies == Seq::new(all.len(), answers)
            }
        }),
{
    lemma_first_failure(protocol, answers, 0);
    lemma_drive_calls(protocol, 0, answers);
    assert(Seq::new(0, answers) =~= Seq::<P::Reply>::empty());
    let k = first_failure(protocol, answers, 0);
    if k < protocol.calls().len() {
        assert(protocol.calls().subrange(0, k + 1) =~= protocol.calls().take(k + 1));
    }
    assert(protocol.calls().skip(0) =~= protocol.calls());
}

} // verus!
