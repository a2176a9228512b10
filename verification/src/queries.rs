//! Read-only queries on courses, the catalog, instructors and earnings.
use vstd::prelude::*;
use crate::model::{ContractError, Course, InstructorStats, TextList, copy_texts};
use crate::state::{HamplardContract, State, admin_check, balance_of, count_of, lookup_course, stats_of, texts_of};
use crate::table::{Addr, Dup, Key, akey, pkey, tkey};

verus! {

/// The page of the catalog that starts at `offset` and holds at most
/// `limit` ids.
pub open spec fn catalog_page(catalog: Seq<Seq<u8>>, offset: u32, limit: u32) -> Seq<Seq<u8>> {
    let start = if offset < catalog.len() {
        offset as int
    } else {
        catalog.len() as int
    };
    let end = if start + limit < catalog.len() {
        start + limit
    } else {
        catalog.len() as int
    };
    catalog.subrange(start, end)
}

/// A count reported as a `u32`, `u32::MAX` if it does not fit.
pub open spec fn clamp_count(n: nat) -> u32 {
    if n > u32::MAX {
        u32::MAX
    } else {
        n as u32
    }
}

/// A copy of a keyed list of ids, empty when absent.
fn texts_or_empty(t: &crate::table::Table<TextList>, k: &Key) -> (r: Vec<Vec<u8>>)
    requires
        t.wf(),
    ensures
        crate::model::texts(r@) == texts_of(t@, k@),
{
    match t.get(k) {
        Some(l) => copy_texts(&l.items),
        None => {
            let r: Vec<Vec<u8>> = Vec::new();
            assert(crate::model::texts(r@) =~= Seq::<Seq<u8>>::empty());
            r
        },
    }
}

impl HamplardContract {
    /// A course by id, live or archived.
    pub fn get_course(&self, course_id: &Vec<u8>) -> (r: Option<Course>)
        requires
            self.wf(),
        ensures
            match r {
                Some(c) => lookup_course(self@, course_id@) == Some(c@),
                None => lookup_course(self@, course_id@) is None,
            },
    {
        match self.find_course(course_id) {
            Some(c) => Some(c.duplicate()),
            None => None,
        }
    }

    /// Every certificate id issued for a course, in issuance order.
    pub fn get_course_certificates(&self, course_id: &Vec<u8>) -> (r: Vec<Vec<u8>>)
        requires
            self.wf(),
        ensures
            crate::model::texts(r@) == texts_of(self@.course_certificates, tkey(course_id@)),
    {
        texts_or_empty(&self.course_certificates, &Key::of_text(course_id))
    }

    /// A page of the course catalog: at most `limit` ids from `offset` on,
    /// empty past the end.
    pub fn list_courses(&self, offset: u32, limit: u32) -> (r: Vec<Vec<u8>>)
        ensures
            crate::model::texts(r@) == catalog_page(self@.course_list, offset, limit),
    {
        let total = self.course_list.items.len();
        let start: usize = if (offset as usize) < total {
            offset as usize
        } else {
            total
        };
        let end: usize = if start as u64 + (limit as u64) < total as u64 {
            start + limit as usize
        } else {
            total
        };
        let mut page: Vec<Vec<u8>> = Vec::new();
        let mut i: usize = start;
        while i < end
            invariant
                start <= i <= end <= total,
                total == self.course_list.items.len(),
                crate::model::texts(page@) == self@.course_list.subrange(start as int, i as int),
            decreases end - i,
        {
            let ghost prev = page@;
            page.push(crate::table::copy_bytes(&self.course_list.items[i]));
            i = i + 1;
            proof {
                let want = self@.course_list.subrange(start as int, i as int);
                assert(prev.len() == crate::model::texts(prev).len());
                assert(page@.len() == prev.len() + 1);
                assert(want.len() == i - start);
                assert forall|j: int| 0 <= j < i - start implies #[trigger] crate::model::texts(page@)[j]
                    == want[j] by {
                    if j < i - start - 1 {
                        assert(page@[j] == prev[j]);
                        assert(crate::model::texts(prev)[j] == self@.course_list.subrange(
                            start as int,
                            i - 1,
                        )[j]);
                    } else {
                        assert(page@[j]@ == self.course_list.items@[i - 1]@);
                    }
                }
                assert(crate::model::texts(page@) =~= want);
            }
        }
        page
    }

    /// How many courses an instructor has registered.
    pub fn get_instructor_course_count(&self, instructor: Addr) -> (r: u32)
        requires
            self.wf(),
        ensures
            r == count_of(self@.course_counts, instructor),
    {
        Self::counter(&self.course_counts, instructor)
    }

    /// Every course id an instructor has registered, in registration order.
    pub fn get_courses_by_instructor(&self, instructor: Addr) -> (r: Vec<Vec<u8>>)
        requires
            self.wf(),
        ensures
            crate::model::texts(r@) == texts_of(self@.instructor_courses, akey(instructor)),
    {
        texts_or_empty(&self.instructor_courses, &Key::of_addr(instructor))
    }

    /// An instructor's reputation counters, zero without activity.
    pub fn get_instructor_stats(&self, instructor: Addr) -> (r: InstructorStats)
        requires
            self.wf(),
        ensures
            r == stats_of(self@, instructor),
    {
        match self.stats.get(&Key::of_addr(instructor)) {
            Some(x) => *x,
            None => InstructorStats { total_students: 0, total_completions: 0, total_certificates: 0 },
        }
    }

    /// Every instructor who has registered a course (admin only).
    pub fn get_all_instructors(&self, now: u32, admin: Addr) -> (r: Result<Vec<Addr>, ContractError>)
        ensures
            match admin_check(self@, now, admin) {
                Some(e) => r == Err::<Vec<Addr>, ContractError>(e),
                None => r matches Ok(v) && v@ == self@.registry,
            },
    {
        if let Some(e) = self.check_admin(now, admin) {
            return Err(e);
        }
        Ok(self.registry.dup().items)
    }

    /// The number of registered instructors (admin only).
    pub fn get_instructor_count(&self, now: u32, admin: Addr) -> (r: Result<u32, ContractError>)
        ensures
            match admin_check(self@, now, admin) {
                Some(e) => r == Err::<u32, ContractError>(e),
                None => r == Ok::<u32, ContractError>(clamp_count(self@.registry.len())),
            },
    {
        if let Some(e) = self.check_admin(now, admin) {
            return Err(e);
        }
        let n = self.registry.items.len();
        if n as u64 > u32::MAX as u64 {
            Ok(u32::MAX)
        } else {
            Ok(n as u32)
        }
    }

    /// An instructor's withdrawable earnings in one token.
    pub fn get_instructor_earnings(&self, instructor: Addr, token: Addr) -> (r: i128)
        requires
            self.wf(),
        ensures
            r == balance_of(self@.earnings, pkey(instructor, token)),
    {
        Self::balance(&self.earnings, &Key::of_pair(instructor, token))
    }

    /// An instructor's earnings over all tokens, net of refunds.
    pub fn get_instructor_total_earnings(&self, instructor: Addr) -> (r: i128)
        requires
            self.wf(),
        ensures
            r == balance_of(self@.total_earnings, akey(instructor)),
    {
        Self::balance(&self.total_earnings, &Key::of_addr(instructor))
    }
}

} // verus!
