//! The responder chain: registration in priority order and the dispatch
//! decisions of chain-of-responsibility.

use vstd::prelude::*;

use crate::responder::{Responder, ResponderContext, ResponderResult};

verus! {

/// Whether the responder registered at index `a` comes before the one
/// registered at index `b`: higher priority first, equal priorities in
/// registration order.
pub open spec fn precedes<R: Responder>(registered: Seq<R>, a: int, b: int) -> bool {
    registered[a].spec_priority() > registered[b].spec_priority() || (
    registered[a].spec_priority() == registered[b].spec_priority() && a < b)
}

/// The first position at or after `from` whose responder accepts the message.
pub open spec fn first_accepting<R: Responder>(
    responders: Seq<R>,
    context: ResponderContext,
    from: int,
) -> Option<int>
    decreases responders.len() - from,
{
    if from < 0 || from >= responders.len() {
        None
    } else if responders[from].accepts(context) {
        Some(from)
    } else {
        first_accepting(responders, context, from + 1)
    }
}

/// What happened at the last step of a dispatch.
pub enum DispatchEvent {
    /// The message has just arrived.
    Start,
    /// The responder at this position handled the message with this result.
    Outcome(usize, ResponderResult),
}

/// What `first_accepting` finds: the least accepting position at or after
/// `from`, or none when no responder there accepts.
pub proof fn lemma_first_accepting<R: Responder>(
    responders: Seq<R>,
    context: ResponderContext,
    from: int,
)
    requires
        0 <= from,
    ensures
        match first_accepting(responders, context, from) {
            Some(k) => from <= k < responders.len() && responders[k].accepts(context) && forall|j: int|
                from <= j < k ==> !(#[trigger] responders[j]).accepts(context),
            None => forall|j: int|
                from <= j < responders.len() ==> !(#[trigger] responders[j]).accepts(context),
        },
    decreases responders.len() - from,
{
    if from < responders.len() && !responders[from].accepts(context) {
        lemma_first_accepting(responders, context, from + 1);
    }
}

/// What the dispatch asks for next.
pub enum DispatchAction {
    /// Run the handling step of the responder at this position.
    Handle(usize),
    /// Dispatch is over: this is the overall reply (possibly none).
    Reply(Option<String>),
}

/// The action for continuing the search at position `from`.
pub open spec fn continue_from<R: Responder>(
    responders: Seq<R>,
    context: ResponderContext,
    from: int,
) -> DispatchAction {
    match first_accepting(responders, context, from) {
        Some(k) => DispatchAction::Handle(k as usize),
        None => DispatchAction::Reply(None),
    }
}

/// Registered responders, kept in dispatch order.
pub struct ResponderManager<R: Responder> {
    responders: Vec<R>,
    /// The responders in the order they were registered.
    registered: Ghost<Seq<R>>,
    /// For each dispatch position, the registration index of its responder.
    origin: Ghost<Seq<int>>,
    /// For each registration index, the dispatch position of its responder.
    position: Ghost<Seq<int>>,
}

impl<R: Responder> ResponderManager<R> {
    /// The responders in dispatch order.
    pub closed spec fn responders(self) -> Seq<R> {
        self.responders@
    }

    /// The responders in registration order.
    pub closed spec fn registered(self) -> Seq<R> {
        self.registered@
    }

    /// The dispatch order is the registration order sorted by descending
    /// priority, stable among equal priorities.
    pub closed spec fn wf(self) -> bool {
        let n = self.responders@.len();
        let reg = self.registered@;
        &&& reg.len() == n
        &&& self.origin@.len() == n
        &&& self.position@.len() == n
        &&& forall|k: int|
            0 <= k < n ==> {
                &&& 0 <= #[trigger] self.origin@[k] < n
                &&& self.position@[self.origin@[k]] == k
                &&& self.responders@[k] == reg[self.origin@[k]]
            }
        &&& forall|j: int|
            0 <= j < n ==> 0 <= #[trigger] self.position@[j] < n && self.origin@[self.position@[j]]
                == j
        &&& forall|k: int, l: int|
            0 <= k < l < n ==> precedes(reg, #[trigger] self.origin@[k], #[trigger] self.origin@[l])
    }

    /// The action that `advance` takes for an event.
    pub open spec fn advance_spec(self, context: ResponderContext, event: DispatchEvent) -> DispatchAction {
        match event {
            DispatchEvent::Start => continue_from(self.responders(), context, 0),
            DispatchEvent::Outcome(i, ResponderResult::Handled(reply)) => DispatchAction::Reply(reply),
            DispatchEvent::Outcome(i, ResponderResult::NotHandled) => continue_from(
                self.responders(),
                context,
                i + 1,
            ),
        }
    }

    /// Create a new empty responder manager.
    pub fn new() -> (r: Self)
        ensures
            r.wf(),
            r.registered() == Seq::<R>::empty(),
            r.responders() == Seq::<R>::empty(),
    {
        ResponderManager {
            responders: Vec::new(),
            registered: Ghost(Seq::empty()),
            origin: Ghost(Seq::empty()),
            position: Ghost(Seq::empty()),
        }
    }

    proof fn lemma_descending(self)
        requires
            self.wf(),
        ensures
            forall|k: int, l: int|
                0 <= k < l < self.responders@.len() ==> (#[trigger] self.responders@[k]).spec_priority()
                    >= (#[trigger] self.responders@[l]).spec_priority(),
    {
        assert forall|k: int, l: int| 0 <= k < l < self.responders@.len() implies (
        #[trigger] self.responders@[k]).spec_priority() >= (
        #[trigger] self.responders@[l]).spec_priority() by {
            assert(precedes(self.registered@, self.origin@[k], self.origin@[l]));
        }
    }

    /// Register a new responder. Dispatch order stays sorted by descending
    /// priority, and the newcomer goes after every responder of equal
    /// priority.
    pub fn register(&mut self, responder: R)
        requires
            old(self).wf(),
        ensures
            final(self).wf(),
            final(self).registered() == old(self).registered().push(responder),
            exists|p: int|
                0 <= p <= old(self).responders().len() && final(self).responders() == old(
                    self,
                ).responders().insert(p, responder) && (forall|k: int|
                    0 <= k < p ==> (#[trigger] old(self).responders()[k]).spec_priority()
                        >= responder.spec_priority()) && (forall|k: int|
                    p <= k < old(self).responders().len() ==> (#[trigger] old(
                        self,
                    ).responders()[k]).spec_priority() < responder.spec_priority()),
    {
        let ghost old_self = *self;
        let ghost newcomer = responder;
        let p = responder.priority();
        let n = self.responders.len();
        proof {
            old_self.lemma_descending();
        }
        let mut i: usize = 0;
        while i < n && self.responders[i].priority() >= p
            invariant
                *self == old_self,
                n == self.responders@.len(),
                i <= n,
                forall|k: int| 0 <= k < i ==> (#[trigger] self.responders@[k]).spec_priority() >= p,
            decreases n - i,
        {
            i = i + 1;
        }
        assert(forall|k: int| i <= k < n ==> (#[trigger] self.responders@[k]).spec_priority() < p);
        let ghost pos = i as int;
        let ghost reg = self.registered@;
        let ghost origin = self.origin@;
        let ghost position = self.position@;
        self.responders.insert(i, responder);
        proof {
            let n2 = n + 1;
            let new_reg = reg.push(newcomer);
            let new_origin = origin.insert(pos, n as int);
            let new_position = Seq::new(
                n2 as nat,
                |j: int|
                    if j == n {
                        pos
                    } else if position[j] >= pos {
                        position[j] + 1
                    } else {
                        position[j]
                    },
            );
            assert forall|a: int, b: int| 0 <= a < n && 0 <= b < n implies precedes(new_reg, a, b)
                == precedes(reg, a, b) by {
                assert(new_reg[a] == reg[a]);
                assert(new_reg[b] == reg[b]);
            }
            assert forall|k: int| 0 <= k < n2 implies {
                &&& 0 <= #[trigger] new_origin[k] < n2
                &&& new_position[new_origin[k]] == k
                &&& self.responders@[k] == new_reg[new_origin[k]]
            } by {
                if k < pos {
                    assert(new_origin[k] == origin[k]);
                } else if k == pos {
                } else {
                    assert(new_origin[k] == origin[k - 1]);
                }
            }
            assert forall|j: int| 0 <= j < n2 implies 0 <= #[trigger] new_position[j] < n2
                && new_origin[new_position[j]] == j by {
                if j < n {
                    let q = position[j];
                    assert(origin[q] == j);
                    if q >= pos {
                        assert(new_origin[q + 1] == origin[q]);
                    } else {
                        assert(new_origin[q] == origin[q]);
                    }
                }
            }
            assert forall|k: int, l: int| 0 <= k < l < n2 implies precedes(
                new_reg,
                #[trigger] new_origin[k],
                #[trigger] new_origin[l],
            ) by {
                if l < pos {
                    assert(precedes(reg, origin[k], origin[l]));
                } else if l == pos {
                    assert(new_reg[new_origin[k]] == old_self.responders@[k]);
                } else if k == pos {
                    assert(new_reg[new_origin[l]] == old_self.responders@[l - 1]);
                } else if k < pos {
                    assert(precedes(reg, origin[k], origin[l - 1]));
                } else {
                    assert(precedes(reg, origin[k - 1], origin[l - 1]));
                }
            }
            self.registered = Ghost(new_reg);
            self.origin = Ghost(new_origin);
            self.position = Ghost(new_position);
            assert(0 <= pos <= old_self.responders().len() && self.responders()
                == old_self.responders().insert(pos, newcomer) && (forall|k: int|
                0 <= k < pos ==> (#[trigger] old_self.responders()[k]).spec_priority()
                    >= newcomer.spec_priority()) && (forall|k: int|
                pos <= k < old_self.responders().len() ==> (
                #[trigger] old_self.responders()[k]).spec_priority() < newcomer.spec_priority()));
        }
    }

    /// Get the number of registered responders.
    pub fn count(&self) -> (r: usize)
        requires
            self.wf(),
        ensures
            r == self.registered().len(),
            r == self.responders().len(),
    {
        self.responders.len()
    }

    /// The responder at a dispatch position.
    pub fn get(&self, index: usize) -> (r: &R)
        requires
            index < self.responders().len(),
        ensures
            *r == self.responders()[index as int],
    {
        &self.responders[index]
    }

    /// The first position at or after `from` whose responder accepts the
    /// message.
    fn next_accepting(&self, context: &ResponderContext, from: usize) -> (r: Option<usize>)
        ensures
            match first_accepting(self.responders(), *context, from as int) {
                Some(k) => r == Some(k as usize),
                None => r is None,
            },
    {
        let n = self.responders.len();
        let mut i = from;
        while i < n
            invariant
                n == self.responders@.len(),
                from <= i,
                first_accepting(self.responders@, *context, from as int) == first_accepting(
                    self.responders@,
                    *context,
                    i as int,
                ),
            decreases n - i,
        {
            if self.responders[i].should_handle(context) {
                return Some(i);
            }
            i = i + 1;
        }
        None
    }

    /// One step of dispatch. At the start, and after a responder returned
    /// `NotHandled`, the next responder in dispatch order whose filter accepts
    /// the message is to handle it; when none is left the reply is none. After
    /// a responder returned `Handled`, its reply is the overall reply. (A
    /// failing handling step ends dispatch at the caller.)
    pub fn advance(&self, context: &ResponderContext, event: DispatchEvent) -> (r: DispatchAction)
        ensures
            r == self.advance_spec(*context, event),
    {
        match event {
            DispatchEvent::Start => match self.next_accepting(context, 0) {
                Some(k) => DispatchAction::Handle(k),
                None => DispatchAction::Reply(None),
            },
            DispatchEvent::Outcome(i, ResponderResult::Handled(reply)) => DispatchAction::Reply(reply),
            DispatchEvent::Outcome(i, ResponderResult::NotHandled) => {
                if i >= self.responders.len() {
                    return DispatchAction::Reply(None);
                }
                match self.next_accepting(context, i + 1) {
                    Some(k) => DispatchAction::Handle(k),
                    None => DispatchAction::Reply(None),
                }
            },
        }
    }

    /// List all registered responders with their priorities, in dispatch
    /// order.
    pub fn list_responders(&self) -> (r: Vec<(String, i32)>)
        ensures
            r@.len() == self.responders().len(),
            forall|k: int|
                0 <= k < r@.len() ==> (#[trigger] r@[k]).0@ == self.responders()[k].spec_name()
                    && r@[k].1 == self.responders()[k].spec_priority(),
    {
        let n = self.responders.len();
        let mut out: Vec<(String, i32)> = Vec::new();
        let mut i: usize = 0;
        while i < n
            invariant
                n == self.responders@.len(),
                i <= n,
                out@.len() == i,
                forall|k: int|
                    0 <= k < i ==> (#[trigger] out@[k]).0@ == self.responders@[k].spec_name()
                        && out@[k].1 == self.responders@[k].spec_priority(),
            decreases n - i,
        {
            let r = &self.responders[i];
            out.push((String::from_str(r.name()), r.priority()));
            i = i + 1;
        }
        out
    }

    /// Dispatch begins with the registered responder of highest priority
    /// whose filter accepts the message, and among equal priorities with the
    /// one registered first; when no registered responder accepts, the reply
    /// is none.
    pub proof fn lemma_dispatch_selects_highest_priority(self, context: ResponderContext)
        requires
            self.wf(),
        ensures
            match self.advance_spec(context, DispatchEvent::Start) {
                DispatchAction::Handle(k) => exists|w: int|
                    0 <= w < self.registered().len() && self.registered()[w] == self.responders()[k as int]
                        && self.registered()[w].accepts(context) && forall|j: int|
                        0 <= j < self.registered().len() && j != w && (
                        #[trigger] self.registered()[j]).accepts(context) ==> precedes(
                            self.registered(),
                            w,
                            j,
                        ),
                DispatchAction::Reply(reply) => reply is None && forall|j: int|
                    0 <= j < self.registered().len() ==> !(
                    #[trigger] self.registered()[j]).accepts(context),
            },
    {
        let s = self.responders@;
        let reg = self.registered@;
        assert(self.responders.len() == s.len());
        lemma_first_accepting(s, context, 0);
        match first_accepting(s, context, 0) {
            Some(k) => {
                let w = self.origin@[k];
                assert forall|j: int|
                    0 <= j < reg.len() && j != w && (#[trigger] reg[j]).accepts(context) implies precedes(
                    reg,
                    w,
                    j,
                ) by {
                    let l = self.position@[j];
                    assert(s[l] == reg[j]);
                    if l < k {
                        assert(!s[l].accepts(context));
                    } else {
                        assert(l != k);
                        assert(precedes(reg, self.origin@[k], self.origin@[l]));
                    }
                }
                assert(0 <= w < self.registered().len() && self.registered()[w]
                    == self.responders()[k] && self.registered()[w].accepts(context) && forall|j: int|
                    0 <= j < self.registered().len() && j != w && (
                    #[trigger] self.registered()[j]).accepts(context) ==> precedes(
                        self.registered(),
                        w,
                        j,
                    ));
            },
            None => {
                assert forall|j: int| 0 <= j < reg.len() implies !(#[trigger] reg[j]).accepts(
                    context,
                ) by {
                    let l = self.position@[j];
                    assert(s[l] == reg[j]);
                }
            },
        }
    }

    /// A responder that alone accepts a message is reached whatever its
    /// priority: dispatch starts at it, and every responder before it that
    /// returns `NotHandled` passes the message on to it.
    pub proof fn lemma_sole_match_is_reached(self, context: ResponderContext, w: int)
        requires
            self.wf(),
            0 <= w < self.registered().len(),
            self.registered()[w].accepts(context),
            forall|j: int|
                0 <= j < self.registered().len() && j != w ==> !(
                #[trigger] self.registered()[j]).accepts(context),
        ensures
            exists|k: int|
                0 <= k < self.responders().len() && self.responders()[k] == self.registered()[w]
                    && self.advance_spec(context, DispatchEvent::Start) == DispatchAction::Handle(
                    k as usize,
                ) && forall|i: usize|
                    i < k ==> #[trigger] self.advance_spec(
                        context,
                        DispatchEvent::Outcome(i, ResponderResult::NotHandled),
                    ) == DispatchAction::Handle(k as usize),
    {
        let s = self.responders@;
        let reg = self.registered@;
        let k = self.position@[w];
        assert(self.responders.len() == s.len());
        assert(s[k] == reg[w]);
        assert forall|from: int| 0 <= from <= k implies #[trigger] first_accepting(s, context, from)
            == Some(k) by {
            lemma_first_accepting(s, context, from);
            match first_accepting(s, context, from) {
                Some(k2) => {
                    assert(s[k2] == reg[self.origin@[k2]]);
                    assert(self.origin@[k2] == w);
                },
                None => {
                    assert(!s[k].accepts(context));
                },
            }
        }
        assert(first_accepting(s, context, 0) == Some(k));
        assert forall|i: usize| i < k implies #[trigger] self.advance_spec(
            context,
            DispatchEvent::Outcome(i, ResponderResult::NotHandled),
        ) == DispatchAction::Handle(k as usize) by {
            assert(first_accepting(s, context, i + 1) == Some(k));
        }
    }

    /// A manager with nothing registered replies nothing, without failing.
    pub proof fn lemma_empty_manager_gives_no_reply(self, context: ResponderContext)
        requires
            self.wf(),
            self.registered().len() == 0,
        ensures
            self.advance_spec(context, DispatchEvent::Start) == DispatchAction::Reply(None),
    {
    }
}

impl<R: Responder> Default for ResponderManager<R> {
    fn default() -> (r: Self)
        ensures
            r.wf(),
            r.registered() == Seq::<R>::empty(),
    {
        Self::new()
    }
}

} // verus!
