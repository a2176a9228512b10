//! Waitlists of full courses: joining, leaving and reading them.
use vstd::prelude::*;
use crate::model::{AddrList, ContractError, CourseStatus};
use crate::state::{lemma_cover_same, HamplardContract, State, committed, in_set, is_admin, lookup_course};
use crate::table::{Addr, Dup, Key, atkey, tkey};

verus! {

/// A course's waitlist, empty when none is stored.
pub open spec fn waitlist_of(s: State, course_id: Seq<u8>) -> Seq<Addr> {
    if s.waitlists.contains_key(tkey(course_id)) {
        s.waitlists[tkey(course_id)]
    } else {
        Seq::empty()
    }
}

/// The first position of an account in a list (meaningful when present).
pub open spec fn first_position(l: Seq<Addr>, a: Addr) -> int {
    choose|j: int| 0 <= j < l.len() && l[j] == a && forall|k: int| 0 <= k < j ==> l[k] != a
}

/// A student joins the waitlist of an Active course that is full; the
/// student must not be enrolled or already waiting.
pub open spec fn spec_join_waitlist(s: State, student: Addr, course_id: Seq<u8>) -> Result<
    State,
    ContractError,
> {
    match lookup_course(s, course_id) {
        None => Err(ContractError::CourseNotFound),
        Some(c) => if in_set(s.blocked_students, student) {
            Err(ContractError::StudentBlocked)
        } else if is_admin(s, student) {
            Err(ContractError::AdminCannotJoinWaitlist)
        } else if student == c.instructor {
            Err(ContractError::InstructorCannotJoinWaitlist)
        } else if c.status != CourseStatus::Active {
            Err(ContractError::CourseNotActive)
        } else if s.enrollments.contains_key(atkey(student, course_id)) {
            Err(ContractError::AlreadyEnrolled)
        } else if c.max_capacity is None {
            Err(ContractError::NoCapacityLimit)
        } else if c.total_enrollments < c.max_capacity->0 {
            Err(ContractError::CapacityAvailable)
        } else if waitlist_of(s, course_id).contains(student) {
            Err(ContractError::AlreadyOnWaitlist)
        } else {
            Ok(
                State {
                    waitlists: s.waitlists.insert(
                        tkey(course_id),
                        waitlist_of(s, course_id).push(student),
                    ),
                    ..s
                },
            )
        },
    }
}

/// A student leaves a waitlist; an emptied waitlist is removed.
pub open spec fn spec_leave_waitlist(s: State, student: Addr, course_id: Seq<u8>) -> Result<
    State,
    ContractError,
> {
    let k = tkey(course_id);
    if !s.waitlists.contains_key(k) {
        Err(ContractError::NoWaitlist)
    } else if !s.waitlists[k].contains(student) {
        Err(ContractError::NotOnWaitlist)
    } else {
        let rest = s.waitlists[k].remove(first_position(s.waitlists[k], student));
        Ok(
            State {
                waitlists: if rest.len() > 0 {
                    s.waitlists.insert(k, rest)
                } else {
                    s.waitlists.remove(k)
                },
                ..s
            },
        )
    }
}

/// The position of the first occurrence of `a` in `l`, if any.
fn find_position(l: &Vec<Addr>, a: Addr) -> (r: Option<usize>)
    ensures
        match r {
            Some(j) => j < l.len() && l@[j as int] == a && j == first_position(l@, a),
            None => !l@.contains(a),
        },
{
    let mut i: usize = 0;
    while i < l.len()
        invariant
            i <= l.len(),
            forall|k: int| 0 <= k < i ==> l@[k] != a,
        decreases l.len() - i,
    {
        if l[i] == a {
            proof {
                let j = first_position(l@, a);
                assert(0 <= i < l@.len() && l@[i as int] == a && forall|k: int|
                    0 <= k < i ==> l@[k] != a);
                assert(0 <= j < l@.len() && l@[j] == a && forall|k: int| 0 <= k < j ==> l@[k] != a);
                if j < i {
                    assert(l@[j] != a);
                }
                if i < j {
                    assert(l@[i as int] != a);
                }
            }
            return Some(i);
        }
        i = i + 1;
    }
    None
}

impl HamplardContract {
    /// A student joins the waitlist of a full course.
    pub fn join_waitlist(&mut self, student: Addr, course_id: &Vec<u8>) -> (r: Result<
        (),
        ContractError,
    >)
        requires
            old(self).wf(),
        ensures
            final(self).wf(),
            committed(r, spec_join_waitlist(old(self)@, student, course_id@), old(self)@, final(self)@),
    {
        let (instructor, status, total, cap) = match self.find_course(course_id) {
            None => {
                return Err(ContractError::CourseNotFound);
            },
            Some(c) => (c.instructor, c.status, c.total_enrollments, c.max_capacity),
        };
        if Self::in_addr_set(&self.blocked_students, student) {
            return Err(ContractError::StudentBlocked);
        }
        if self.is_admin_addr(student) {
            return Err(ContractError::AdminCannotJoinWaitlist);
        }
        if student == instructor {
            return Err(ContractError::InstructorCannotJoinWaitlist);
        }
        if status != CourseStatus::Active {
            return Err(ContractError::CourseNotActive);
        }
        if self.enrollments.contains(&Key::of_addr_text(student, course_id)) {
            return Err(ContractError::AlreadyEnrolled);
        }
        match cap {
            None => {
                return Err(ContractError::NoCapacityLimit);
            },
            Some(m) => {
                if total < m {
                    return Err(ContractError::CapacityAvailable);
                }
            },
        }
        let key = Key::of_text(course_id);
        let ghost before = waitlist_of(self@, course_id@);
        let mut list = match self.waitlists.get(&key) {
            Some(l) => l.dup(),
            None => AddrList { items: Vec::new() },
        };
        assert(list@ == before) by {
            if !self@.waitlists.contains_key(tkey(course_id@)) {
                assert(list@ =~= Seq::<Addr>::empty());
            }
        }
        if let Some(j) = find_position(&list.items, student) {
            assert(list@[j as int] == student);
            return Err(ContractError::AlreadyOnWaitlist);
        }
        list.items.push(student);
        self.waitlists.set(key, list);
        Ok(())
    }

    /// A student leaves a course's waitlist.
    pub fn leave_waitlist(&mut self, student: Addr, course_id: &Vec<u8>) -> (r: Result<
        (),
        ContractError,
    >)
        requires
            old(self).wf(),
        ensures
            final(self).wf(),
            committed(r, spec_leave_waitlist(old(self)@, student, course_id@), old(self)@, final(self)@),
    {
        let key = Key::of_text(course_id);
        let mut list = match self.waitlists.get(&key) {
            None => {
                return Err(ContractError::NoWaitlist);
            },
            Some(l) => l.dup(),
        };
        let j = match find_position(&list.items, student) {
            None => {
                return Err(ContractError::NotOnWaitlist);
            },
            Some(j) => j,
        };
        assert(list@[j as int] == student);
        assert(list@ == old(self)@.waitlists[tkey(course_id@)]);
        let _ = list.items.remove(j);
        if list.items.len() > 0 {
            self.waitlists.set(key, list);
        } else {
            let _ = self.waitlists.remove(&key);
        }
        proof {
            lemma_cover_same(old(self)@, self@);
        }
        Ok(())
    }

    /// A course's waitlist, first in line first, if one is stored.
    pub fn get_waitlist(&self, course_id: &Vec<u8>) -> (r: Option<Vec<Addr>>)
        requires
            self.wf(),
        ensures
            match r {
                Some(l) => self@.waitlists.contains_key(tkey(course_id@)) && l@
                    == self@.waitlists[tkey(course_id@)],
                None => !self@.waitlists.contains_key(tkey(course_id@)),
            },
    {
        match self.waitlists.get(&Key::of_text(course_id)) {
            Some(l) => Some(l.dup().items),
            None => None,
        }
    }
}

} // verus!
