use vstd::prelude::*;

verus! {

/// A value submitted for a control and not yet confirmed or rejected.
#[derive(Debug)]
pub struct PendingAction {
    pub value: String,
    /// Identifies the confirming request; only its resolution may touch the control.
    pub ticket: u64,
}

/// A named control parameter: its last confirmed value and at most one pending value.
#[derive(Debug)]
pub struct ControlValue {
    pub name: String,
    pub confirmed: String,
    pub pending: Option<PendingAction>,
}

/// The confirming request the driver must send for a submission.
#[derive(Debug)]
pub struct ActionRequest {
    pub ticket: u64,
    pub name: String,
    pub value: String,
}

/// Why a control operation was refused.
#[derive(Clone, Copy, Debug, PartialEq, Eq, Structural)]
pub enum ActionError {
    /// No control of that name was registered.
    UnknownControl,
    /// A control of that name is already registered.
    DuplicateControl,
    /// Every request ticket has been handed out.
    TicketsExhausted,
}

/// What the operator sees: the pending value if there is one, else the confirmed one.
pub open spec fn displayed(c: ControlValue) -> String {
    match c.pending {
        Some(p) => p.value,
        None => c.confirmed,
    }
}

pub open spec fn has_control(s: Seq<ControlValue>, name: Seq<char>) -> bool {
    exists|i: int| 0 <= i < s.len() && (#[trigger] s[i]).name@ == name
}

pub open spec fn names_unique(s: Seq<ControlValue>) -> bool {
    forall|i: int, j: int|
        0 <= i < s.len() && 0 <= j < s.len() && (#[trigger] s[i]).name@ == (#[trigger] s[j]).name@ ==> i == j
}

/// Every pending ticket is below `t`.
pub open spec fn tickets_below(s: Seq<ControlValue>, t: u64) -> bool {
    forall|i: int| 0 <= i < s.len() && (#[trigger] s[i]).pending.is_some() ==> s[i].pending.unwrap().ticket < t
}

pub open spec fn has_ticket(c: ControlValue, ticket: u64) -> bool {
    c.pending.is_some() && c.pending.unwrap().ticket == ticket
}

/// Whether some control waits on the request `ticket`.
pub open spec fn is_outstanding(s: Seq<ControlValue>, ticket: u64) -> bool {
    exists|i: int| 0 <= i < s.len() && has_ticket(#[trigger] s[i], ticket)
}

/// A control after `value` was submitted for it under `ticket`; an earlier
/// pending value is superseded.
pub open spec fn submit_one(c: ControlValue, value: String, ticket: u64) -> ControlValue {
    ControlValue { name: c.name, confirmed: c.confirmed, pending: Some(PendingAction { value, ticket }) }
}

pub open spec fn submitted(s: Seq<ControlValue>, name: Seq<char>, value: String, ticket: u64) -> Seq<ControlValue> {
    Seq::new(s.len(), |i: int| if s[i].name@ == name { submit_one(s[i], value, ticket) } else { s[i] })
}

/// A control after the request `ticket` resolved: committed when accepted,
/// rolled back otherwise; a control waiting on another ticket is unchanged.
pub open spec fn resolve_one(c: ControlValue, ticket: u64, accepted: bool) -> ControlValue {
    if has_ticket(c, ticket) {
        ControlValue {
            name: c.name,
            confirmed: if accepted { c.pending.unwrap().value } else { c.confirmed },
            pending: None,
        }
    } else {
        c
    }
}

pub open spec fn resolved(s: Seq<ControlValue>, ticket: u64, accepted: bool) -> Seq<ControlValue> {
    Seq::new(s.len(), |i: int| resolve_one(s[i], ticket, accepted))
}

/// Optimistic updates of named controls, reconciled when their confirming
/// requests resolve; the most recent submission for a control wins.
pub struct OptimisticActionController {
    controls: Vec<ControlValue>,
    next_ticket: u64,
}

impl View for OptimisticActionController {
    type V = Seq<ControlValue>;

    closed spec fn view(&self) -> Seq<ControlValue> {
        self.controls@
    }
}

impl OptimisticActionController {
    /// The ticket the next submission will carry.
    pub closed spec fn next(&self) -> u64 {
        self.next_ticket
    }

    /// Well-formedness: one entry per name, and every pending ticket already issued.
    pub closed spec fn wf(&self) -> bool {
        names_unique(self.controls@) && tickets_below(self.controls@, self.next_ticket)
    }

    /// A controller with no controls.
    pub fn new() -> (r: Self)
        ensures
            r.wf(),
            r@ == Seq::<ControlValue>::empty(),
            r.next() == 0,
    {
        OptimisticActionController { controls: Vec::new(), next_ticket: 0 }
    }

    fn find(&self, name: &String) -> (r: Option<usize>)
        ensures
            match r {
                Some(i) => i < self@.len() && self@[i as int].name@ == name@,
                None => !has_control(self@, name@),
            },
    {
        let mut i: usize = 0;
        while i < self.controls.len()
            invariant
                i <= self.controls@.len(),
                forall|j: int| 0 <= j < i ==> (#[trigger] self.controls@[j]).name@ != name@,
            decreases self.controls@.len() - i,
        {
            if self.controls[i].name == *name {
                return Some(i);
            }
            i += 1;
        }
        None
    }

    /// Adds a control with a confirmed initial value.
    pub fn register(&mut self, name: String, initial: String) -> (r: Result<(), ActionError>)
        requires
            old(self).wf(),
        ensures
            final(self).wf(),
            final(self).next() == old(self).next(),
            r is Err <==> has_control(old(self)@, name@),
            r is Err ==> r == Err::<(), ActionError>(ActionError::DuplicateControl) && final(self)@ == old(self)@,
            r is Ok ==> final(self)@ == old(self)@.push(ControlValue { name, confirmed: initial, pending: None }),
    {
        match self.find(&name) {
            Some(_) => Err(ActionError::DuplicateControl),
            None => {
                self.controls.push(ControlValue { name, confirmed: initial, pending: None });
                Ok(())
            },
        }
    }

    /// Shows `value` for the control at once and returns the confirming
    /// request to send; a request still pending for that control is superseded.
    pub fn submit(&mut self, name: String, value: String) -> (r: Result<ActionRequest, ActionError>)
        requires
            old(self).wf(),
        ensures
            final(self).wf(),
            !has_control(old(self)@, name@) <==> r == Err::<ActionRequest, ActionError>(ActionError::UnknownControl),
            has_control(old(self)@, name@) && old(self).next() == u64::MAX
                <==> r == Err::<ActionRequest, ActionError>(ActionError::TicketsExhausted),
            r is Ok <==> has_control(old(self)@, name@) && old(self).next() < u64::MAX,
            r is Err ==> final(self)@ == old(self)@ && final(self).next() == old(self).next(),
            r is Ok ==> {
                &&& r->Ok_0.ticket == old(self).next()
                &&& r->Ok_0.name@ == name@
                &&& r->Ok_0.value == value
                &&& final(self).next() == old(self).next() + 1
                &&& final(self)@ == submitted(old(self)@, name@, value, old(self).next())
            },
    {
        match self.find(&name) {
            None => Err(ActionError::UnknownControl),
            Some(i) => {
                if self.next_ticket == u64::MAX {
                    return Err(ActionError::TicketsExhausted);
                }
                let ticket = self.next_ticket;
                let old_controls = Ghost(self.controls@);
                let entry = ControlValue {
                    name: self.controls[i].name.clone(),
                    confirmed: self.controls[i].confirmed.clone(),
                    pending: Some(PendingAction { value: value.clone(), ticket }),
                };
                self.controls.set(i, entry);
                self.next_ticket = ticket + 1;
                assert(self.controls@ =~= submitted(old_controls@, name@, value, ticket));
                Ok(ActionRequest { ticket, name, value })
            },
        }
    }

    /// Applies the outcome of the request `ticket`: commit when accepted,
    /// roll back otherwise. The outcome of a superseded or unknown request is
    /// dropped. Returns whether some control was waiting on it.
    pub fn resolve(&mut self, ticket: u64, accepted: bool) -> (r: bool)
        requires
            old(self).wf(),
        ensures
            final(self).wf(),
            final(self).next() == old(self).next(),
            r == is_outstanding(old(self)@, ticket),
            final(self)@ == resolved(old(self)@, ticket, accepted),
    {
        let old_controls = Ghost(self.controls@);
        let mut found = false;
        let mut i: usize = 0;
        while i < self.controls.len()
            invariant
                i <= self.controls@.len(),
                self.controls@.len() == old_controls@.len(),
                self.next_ticket == old(self).next_ticket,
                forall|j: int| 0 <= j < i ==> #[trigger] self.controls@[j] == resolve_one(old_controls@[j], ticket, accepted),
                forall|j: int| i <= j < self.controls@.len() ==> #[trigger] self.controls@[j] == old_controls@[j],
                found == exists|j: int| 0 <= j < i && has_ticket(#[trigger] old_controls@[j], ticket),
            decreases self.controls@.len() - i,
        {
            let hit = match &self.controls[i].pending {
                Some(p) => p.ticket == ticket,
                None => false,
            };
            if hit {
                let c = &self.controls[i];
                let pending_value = match &c.pending {
                    Some(p) => p.value.clone(),
                    None => c.confirmed.clone(),
                };
                let entry = ControlValue {
                    name: c.name.clone(),
                    confirmed: if accepted { pending_value } else { c.confirmed.clone() },
                    pending: None,
                };
                self.controls.set(i, entry);
                found = true;
            }
            assert(has_ticket(old_controls@[i as int], ticket) == hit);
            i += 1;
        }
        assert(self.controls@ =~= resolved(old_controls@, ticket, accepted));
        found
    }

    /// The value the operator sees for `name`, if it is registered.
    pub fn displayed_value(&self, name: &String) -> (r: Option<String>)
        requires
            self.wf(),
        ensures
            r is None <==> !has_control(self@, name@),
            r is Some ==> forall|i: int|
                0 <= i < self@.len() && (#[trigger] self@[i]).name@ == name@ ==> r == Some(displayed(self@[i])),
    {
        match self.find(name) {
            None => None,
            Some(i) => match &self.controls[i].pending {
                Some(p) => Some(p.value.clone()),
                None => Some(self.controls[i].confirmed.clone()),
            },
        }
    }

    /// The last confirmed value of `name`, if it is registered.
    pub fn confirmed_value(&self, name: &String) -> (r: Option<String>)
        requires
            self.wf(),
        ensures
            r is None <==> !has_control(self@, name@),
            r is Some ==> forall|i: int|
                0 <= i < self@.len() && (#[trigger] self@[i]).name@ == name@ ==> r == Some(self@[i].confirmed),
    {
        match self.find(name) {
            None => None,
            Some(i) => Some(self.controls[i].confirmed.clone()),
        }
    }

    /// Whether the control `name` waits on a confirming request.
    pub fn is_pending(&self, name: &String) -> (r: bool)
        requires
            self.wf(),
        ensures
            r <==> exists|i: int|
                0 <= i < self@.len() && (#[trigger] self@[i]).name@ == name@ && self@[i].pending.is_some(),
    {
        match self.find(name) {
            None => false,
            Some(i) => self.controls[i].pending.is_some(),
        }
    }
}

/// Last submit wins: after two submissions for one control, the first one's
/// outcome, success or failure, arriving before or after the second's, is
/// dropped; when the second succeeds the control confirms its value, exactly
/// as if the first had never been made.
pub proof fn lemma_last_submit_wins(
    s: Seq<ControlValue>,
    name: Seq<char>,
    v1: String,
    v2: String,
    t1: u64,
    t2: u64,
    first_ok: bool,
)
    requires
        tickets_below(s, t1),
        t1 < t2,
    ensures
        ({
            let both = submitted(submitted(s, name, v1, t1), name, v2, t2);
            let first_resolves_first = resolved(resolved(both, t1, first_ok), t2, true);
            let second_resolves_first = resolved(resolved(both, t2, true), t1, first_ok);
            let only_second = resolved(submitted(s, name, v2, t2), t2, true);
            &&& first_resolves_first == only_second
            &&& second_resolves_first == only_second
            &&& forall|i: int|
                0 <= i < s.len() && (#[trigger] s[i]).name@ == name ==> only_second[i].confirmed == v2
                    && only_second[i].pending is None
        }),
{
    let both = submitted(submitted(s, name, v1, t1), name, v2, t2);
    let one = submitted(s, name, v2, t2);
    assert(both =~= one);
    assert(resolved(one, t1, first_ok) =~= one);
    let r2 = resolved(one, t2, true);
    assert(resolved(r2, t1, first_ok) =~= r2);
}

/// A rejected submission leaves every confirmed value as it was before the
/// submission, clears the control's pending value so that it shows its
/// confirmed value again, and touches no other control.
pub proof fn lemma_rejection_rolls_back(s: Seq<ControlValue>, name: Seq<char>, v: String, t: u64)
    requires
        tickets_below(s, t),
    ensures
        ({
            let after = resolved(submitted(s, name, v, t), t, false);
            &&& after.len() == s.len()
            &&& forall|i: int| 0 <= i < s.len() ==> (#[trigger] after[i]).confirmed == s[i].confirmed
            &&& forall|i: int|
                0 <= i < s.len() && s[i].name@ == name ==> (#[trigger] after[i]).pending is None
                    && displayed(after[i]) == s[i].confirmed
            &&& forall|i: int| 0 <= i < s.len() && s[i].name@ != name ==> #[trigger] after[i] == s[i]
        }),
{
}

} // verus!
