//! Batch deletion: the tally of a batch, and what the application shows
//! while and after it runs.
use vstd::prelude::*;
use crate::app::App;
use crate::keys::{AfterRefresh, Command};
use crate::messages::{deleting_text, join_all, joined, with_number};
use crate::slug_set::texts;
use crate::text::{decimal, push_decimal};

verus! {

/// A batch of sites to delete one after another, with the tally so far.
#[derive(Debug)]
pub struct DeleteBatch {
    slugs: Vec<String>,
    done: usize,
    deleted: usize,
    failures: Vec<String>,
}

impl DeleteBatch {
    /// The slugs of the batch, in the order they are deleted.
    pub closed spec fn targets(self) -> Seq<Seq<char>> {
        texts(self.slugs@)
    }

    /// How many deletions have been tried.
    pub closed spec fn tried(self) -> nat {
        self.done as nat
    }

    /// How many deletions succeeded.
    pub closed spec fn succeeded(self) -> nat {
        self.deleted as nat
    }

    /// One line per failed deletion: the slug and the error.
    pub closed spec fn failure_lines(self) -> Seq<Seq<char>> {
        texts(self.failures@)
    }

    #[verifier::type_invariant]
    spec fn tally_adds_up(self) -> bool {
        &&& self.deleted + self.failures@.len() == self.done
        &&& self.done <= self.slugs@.len()
    }

    /// A batch over `slugs` of which nothing has been tried yet.
    pub fn new(slugs: Vec<String>) -> (r: Self)
        ensures
            r.targets() == texts(slugs@),
            r.tried() == 0,
            r.succeeded() == 0,
            r.failure_lines() == Seq::<Seq<char>>::empty(),
    {
        let r = DeleteBatch { slugs, done: 0, deleted: 0, failures: Vec::new() };
        assert(r.failure_lines() =~= Seq::<Seq<char>>::empty());
        r
    }

    /// The number of slugs in the batch.
    pub fn total(&self) -> (r: usize)
        ensures
            r == self.targets().len(),
    {
        self.slugs.len()
    }

    /// The number of deletions that succeeded.
    pub fn deleted(&self) -> (r: usize)
        ensures
            r == self.succeeded(),
            self.succeeded() + self.failure_lines().len() == self.tried(),
            self.tried() <= self.targets().len(),
    {
        proof {
            use_type_invariant(self);
        }
        self.deleted
    }

    /// The failed deletions, one line each.
    pub fn failures(&self) -> (r: &Vec<String>)
        ensures
            texts(r@) == self.failure_lines(),
    {
        &self.failures
    }

}

/// The line that reports one failed deletion.
pub open spec fn failure_line(slug: Seq<char>, error: Seq<char>) -> Seq<char> {
    slug + ": "@ + error
}

/// The report after a batch: how many sites were deleted, or which failed.
pub open spec fn deletion_report(deleted: nat, total: nat, failures: Seq<Seq<char>>) -> Seq<char> {
    "Deleted "@ + decimal(deleted) + "/"@ + decimal(total) + "; failed: "@ + joined(failures, " \u{b7} "@)
}

/// `new` is `old` with the outcome of `batch` reported: the number deleted
/// in the status when none failed, otherwise an error that lists the
/// failures.
pub open spec fn deletions_reported(old: App, new: App, batch: DeleteBatch) -> bool {
    &&& batch.failure_lines().len() == 0 ==> {
        &&& new.status@ == "Deleted "@ + decimal(batch.succeeded()) + " Site(s)"@
        &&& new == (App { status: new.status, ..old })
    }
    &&& batch.failure_lines().len() > 0 ==> {
        &&& new.error matches Some(e) && e@ == deletion_report(batch.succeeded(), batch.targets().len(), batch.failure_lines())
        &&& new == (App { error: new.error, ..old })
    }
}

impl App {
    /// Announces the next deletion of the batch and returns its slug; `None`
    /// when every slug of the batch has been tried.
    pub fn next_deletion(&mut self, batch: &DeleteBatch) -> (r: Option<String>)
        ensures
            batch.tried() < batch.targets().len() ==> {
                &&& r matches Some(slug) && slug@ == batch.targets()[batch.tried() as int]
                &&& final(self).status@ == deleting_text(batch.targets()[batch.tried() as int], batch.succeeded() + 1, batch.targets().len())
                &&& *final(self) == (App { status: final(self).status, ..*old(self) })
            },
            batch.tried() >= batch.targets().len() ==> r is None && *final(self) == *old(self),
    {
        proof {
            use_type_invariant(batch);
        }
        if batch.done < batch.slugs.len() {
            let slug = batch.slugs[batch.done].clone();
            let mut status = join3_owned("Deleting ", &slug, "\u{2026} (");
            push_decimal(&mut status, (batch.deleted + 1) as u64);
            status.append("/");
            push_decimal(&mut status, batch.slugs.len() as u64);
            status.append(")");
            self.status = status;
            Some(slug)
        } else {
            None
        }
    }

    /// Records the outcome of the pending deletion of the batch: a deleted
    /// site is unmarked, a failure is kept with its error.
    pub fn record_deletion(&mut self, batch: &mut DeleteBatch, result: Result<(), String>)
        ensures
            old(batch).tried() < old(batch).targets().len() ==> {
                let slug = old(batch).targets()[old(batch).tried() as int];
                &&& final(batch).targets() == old(batch).targets()
                &&& final(batch).tried() == old(batch).tried() + 1
                &&& match result {
                    Ok(_) => {
                        &&& final(batch).succeeded() == old(batch).succeeded() + 1
                        &&& final(batch).failure_lines() == old(batch).failure_lines()
                        &&& final(self).selected_sites@ == old(self).selected_sites@.remove(slug)
                        &&& *final(self) == (App { selected_sites: final(self).selected_sites, ..*old(self) })
                    },
                    Err(e) => {
                        &&& final(batch).succeeded() == old(batch).succeeded()
                        &&& final(batch).failure_lines() == old(batch).failure_lines().push(failure_line(slug, e@))
                        &&& *final(self) == *old(self)
                    },
                }
            },
            old(batch).tried() >= old(batch).targets().len() ==> *final(batch) == *old(batch) && *final(self) == *old(self),
    {
        proof {
            use_type_invariant(&*batch);
        }
        if batch.done >= batch.slugs.len() {
            return;
        }
        let slug = batch.slugs[batch.done].clone();
        let mut taken = DeleteBatch { slugs: Vec::new(), done: 0, deleted: 0, failures: Vec::new() };
        std::mem::swap(&mut taken, batch);
        let DeleteBatch { slugs, done, deleted, failures } = taken;
        let ghost before = texts(failures@);
        let mut failures = failures;
        let done = done + 1;
        let mut deleted = deleted;
        match result {
            Ok(()) => {
                deleted = deleted + 1;
                self.selected_sites.remove(&slug);
            },
            Err(error) => {
                let mut line = slug.clone();
                line.append(": ");
                line.append(error.as_str());
                failures.push(line);
                assert(texts(failures@) =~= before.push(failure_line(slug@, error@)));
            },
        }
        *batch = DeleteBatch { slugs, done, deleted, failures };
    }

    /// Forgets the loaded site detail and analytics before the list reloads.
    pub fn clear_details(&mut self)
        ensures
            *final(self) == (App { site_detail: None, analytics: None, ..*old(self) }),
    {
        self.site_detail = None;
        self.analytics = None;
    }

    /// Ends a batch whose deletions are all done: forgets the loaded detail
    /// and analytics, and asks for a reload of the lists, after which the
    /// outcome is reported.
    pub fn finish_batch(&mut self, batch: DeleteBatch) -> (r: Command)
        ensures
            *final(self) == (App { site_detail: None, analytics: None, ..*old(self) }),
            r matches Command::RefreshThen { then: AfterRefresh::ReportDeletions { batch: b } } && b == batch,
    {
        self.clear_details();
        Command::RefreshThen { then: AfterRefresh::ReportDeletions { batch } }
    }

    /// Reports the outcome of a batch: the number deleted when none failed,
    /// otherwise an error that lists the failures.
    pub fn report_deletions(&mut self, batch: &DeleteBatch)
        ensures
            deletions_reported(*old(self), *final(self), *batch),
    {
        if batch.failures.len() == 0 {
            self.status = with_number("Deleted ", batch.deleted as u64, " Site(s)");
        } else {
            let mut text = with_number("Deleted ", batch.deleted as u64, "/");
            push_decimal(&mut text, batch.slugs.len() as u64);
            text.append("; failed: ");
            let list = join_all(&batch.failures, " \u{b7} ");
            text.append(list.as_str());
            self.error = Some(text);
        }
    }
}

/// `a`, `b` and `c` one after the other, with `b` an owned string.
fn join3_owned(a: &str, b: &String, c: &str) -> (r: String)
    ensures
        r@ == a@ + b@ + c@,
{
    let mut r = String::from_str(a);
    r.append(b.as_str());
    r.append(c);
    r
}

} // verus!
