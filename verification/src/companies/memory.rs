//! The in-process reference repository for companies.
//!
//! It conforms to the same contract as the relational backend: listing
//! with a case-insensitive name filter, get by identifier, create with
//! business-key synthesis, field-level optional-merge update, and
//! duplication under a fresh identity.  An unknown identifier is an
//! explicit absent result, never a failure.  Unlike the relational
//! backend, which leans on a unique column constraint, this store
//! checks every synthesized identifier and business key against the
//! records it holds, so freshness is proved, not hoped for.

use vstd::prelude::*;
use crate::companies::models::{Company, CompanyRequest, CompanyV, merged};
use crate::error::AppError;
use crate::ids::{distinct_from, fresh_uuid};
use crate::text::{contains_ci, contains_folded, has_prefix, lemma_prefix_trans, str_eq};
use crate::companies::models::synthesize_cif;

verus! {

/// Whether a record with identifier `id` is present.
pub open spec fn has_company(s: Seq<CompanyV>, id: Seq<char>) -> bool {
    exists|i: int| 0 <= i < s.len() && s[i].id == id
}

/// Whether the filter keeps a record: no filter keeps everything, a
/// filter keeps the records whose folded name contains the folded
/// filter.
pub open spec fn kept(c: CompanyV, filter: Option<Seq<char>>) -> bool {
    match filter {
        None => true,
        Some(f) => contains_folded(c.name, f),
    }
}

/// The records a listing returns, in store order.
pub open spec fn list_matches(s: Seq<CompanyV>, filter: Option<Seq<char>>) -> Seq<CompanyV>
    decreases s.len(),
{
    if s.len() == 0 {
        Seq::empty()
    } else if kept(s.last(), filter) {
        list_matches(s.drop_last(), filter).push(s.last())
    } else {
        list_matches(s.drop_last(), filter)
    }
}

/// A duplicate never copies the business key: a copy whose key was
/// synthesized against the store (distinct from every stored key,
/// with the fixed prefix) carries a key that differs from the
/// original's and is never empty.  The store's `duplicate` ensures
/// exactly those clauses of its result.
pub proof fn lemma_duplicate_never_copies_business_key(s: Seq<CompanyV>, d: CompanyV, i: int)
    requires
        0 <= i < s.len(),
        s[i].cif_number is Some,
        d.cif_number is Some,
        has_prefix(d.cif_number->Some_0, "CIF-"@),
        forall|j: int|
            0 <= j < s.len() && s[j].cif_number is Some ==> d.cif_number->Some_0
                != s[j].cif_number->Some_0,
    ensures
        d.cif_number != s[i].cif_number,
        d.cif_number->Some_0.len() > 0,
{
    reveal_strlit("CIF-");
    assert("CIF-"@.len() == 4);
}

/// A listing returns exactly the records the filter keeps: every
/// returned record is a stored one that the filter keeps, and every
/// stored record the filter keeps is returned.
pub proof fn lemma_list_matches_exact(s: Seq<CompanyV>, filter: Option<Seq<char>>)
    ensures
        forall|j: int|
            0 <= j < list_matches(s, filter).len() ==> kept(
                #[trigger] list_matches(s, filter)[j],
                filter,
            ) && s.contains(list_matches(s, filter)[j]),
        forall|i: int|
            0 <= i < s.len() && kept(#[trigger] s[i], filter) ==> list_matches(
                s,
                filter,
            ).contains(s[i]),
    decreases s.len(),
{
    if s.len() > 0 {
        let prev = s.drop_last();
        let kept_all = list_matches(s, filter);
        lemma_list_matches_exact(prev, filter);
        assert forall|j: int|
            0 <= j < kept_all.len() implies kept(#[trigger] kept_all[j], filter) && s.contains(
            kept_all[j],
        ) by {
            if j < list_matches(prev, filter).len() {
                assert(kept_all[j] == list_matches(prev, filter)[j]);
                let k = choose|k: int| 0 <= k < prev.len() && prev[k] == kept_all[j];
                assert(s[k] == kept_all[j]);
            } else {
                assert(kept_all[j] == s.last());
                assert(s[s.len() - 1] == s.last());
            }
        }
        assert forall|i: int|
            0 <= i < s.len() && kept(#[trigger] s[i], filter) implies list_matches(
            s,
            filter,
        ).contains(s[i]) by {
            if i < s.len() - 1 {
                assert(prev[i] == s[i]);
                assert(list_matches(prev, filter).contains(s[i]));
                let k = choose|k: int|
                    0 <= k < list_matches(prev, filter).len() && list_matches(prev, filter)[k]
                        == s[i];
                assert(kept_all[k] == s[i]);
            } else {
                assert(s[i] == s.last());
                assert(kept_all[kept_all.len() - 1] == s[i]);
            }
        }
    }
}

/// A process-local store of company records.
pub struct MemoryCompanyRepository {
    companies: Vec<Company>,
}

impl View for MemoryCompanyRepository {
    type V = Seq<CompanyV>;

    closed spec fn view(&self) -> Seq<CompanyV> {
        self.companies@.map_values(|c: Company| c@)
    }
}

impl MemoryCompanyRepository {
    /// Identifiers are pairwise distinct.
    pub open spec fn wf(&self) -> bool {
        forall|i: int, j: int|
            0 <= i < j < self@.len() ==> self@[i].id != self@[j].id
    }

    /// An empty store.
    pub fn new() -> (repo: MemoryCompanyRepository)
        ensures
            repo@ == Seq::<CompanyV>::empty(),
            repo.wf(),
    {
        let repo = MemoryCompanyRepository { companies: Vec::new() };
        proof {
            assert(repo@ =~= Seq::<CompanyV>::empty());
        }
        repo
    }

    /// The position of the record with identifier `id`, if any.
    fn find_idx(&self, id: &str) -> (r: Option<usize>)
        ensures
            r is None ==> !has_company(self@, id@),
            r matches Some(i) ==> 0 <= i < self@.len() && self@[i as int].id == id@,
    {
        let mut i: usize = 0;
        while i < self.companies.len()
            invariant
                0 <= i <= self@.len(),
                self@.len() == self.companies@.len(),
                forall|j: int| 0 <= j < i ==> self@[j].id != id@,
            decreases self@.len() - i,
        {
            if str_eq(self.companies[i].id.as_str(), id) {
                return Some(i);
            }
            i = i + 1;
        }
        None
    }

    /// Every stored identifier, in store order.
    fn all_ids(&self) -> (ids: Vec<String>)
        ensures
            ids@.len() == self@.len(),
            forall|i: int| 0 <= i < self@.len() ==> ids@[i]@ == self@[i].id,
    {
        let mut ids: Vec<String> = Vec::new();
        let mut i: usize = 0;
        while i < self.companies.len()
            invariant
                0 <= i <= self@.len(),
                self@.len() == self.companies@.len(),
                ids@.len() == i,
                forall|j: int| 0 <= j < i ==> ids@[j]@ == self@[j].id,
            decreases self@.len() - i,
        {
            ids.push(self.companies[i].id.clone());
            i = i + 1;
        }
        ids
    }

    /// Every stored business key; a record without one contributes
    /// nothing.
    fn all_cifs(&self) -> (cifs: Vec<String>)
        ensures
            forall|i: int|
                0 <= i < self@.len() && self@[i].cif_number is Some ==> exists|j: int|
                    0 <= j < cifs@.len() && cifs@[j]@ == self@[i].cif_number->Some_0,
    {
        let mut cifs: Vec<String> = Vec::new();
        let mut i: usize = 0;
        while i < self.companies.len()
            invariant
                0 <= i <= self@.len(),
                self@.len() == self.companies@.len(),
                forall|k: int|
                    0 <= k < i && self@[k].cif_number is Some ==> exists|j: int|
                        0 <= j < cifs@.len() && cifs@[j]@ == self@[k].cif_number->Some_0,
            decreases self@.len() - i,
        {
            let ghost pre = cifs@;
            match &self.companies[i].cif_number {
                Some(c) => {
                    cifs.push(c.clone());
                }
                None => {}
            }
            proof {
                assert forall|k: int|
                    0 <= k < i + 1 && self@[k].cif_number is Some implies exists|j: int|
                        0 <= j < cifs@.len() && cifs@[j]@ == self@[k].cif_number->Some_0 by {
                    if k < i {
                        let j = choose|j: int|
                            0 <= j < pre.len() && pre[j]@ == self@[k].cif_number->Some_0;
                        assert(cifs@[j]@ == self@[k].cif_number->Some_0);
                    } else {
                        assert(self@[k] == self.companies@[k]@);
                        assert(cifs@[pre.len() as int]@ == self@[k].cif_number->Some_0);
                    }
                }
            }
            i = i + 1;
        }
        cifs
    }

    /// Lists the stored records, newest last, keeping exactly those
    /// whose name contains the filter in any letter case.
    pub fn list(&self, name_filter: Option<String>) -> (r: Result<Vec<Company>, AppError>)
        ensures
            r matches Ok(out) && out@.map_values(|c: Company| c@) == list_matches(
                self@,
                match name_filter {
                    Some(f) => Some(f@),
                    None => None,
                },
            ),
    {
        let ghost filter: Option<Seq<char>> = match name_filter {
            Some(ref f) => Some(f@),
            None => None,
        };
        let mut out: Vec<Company> = Vec::new();
        let mut i: usize = 0;
        while i < self.companies.len()
            invariant
                0 <= i <= self@.len(),
                self@.len() == self.companies@.len(),
                out@.map_values(|c: Company| c@) == list_matches(self@.take(i as int), filter),
                filter == (match name_filter {
                    Some(ref f) => Some::<Seq<char>>(f@),
                    None => None::<Seq<char>>,
                }),
            decreases self@.len() - i,
        {
            let keep = match &name_filter {
                Some(f) => contains_ci(self.companies[i].name.as_str(), f.as_str()),
                None => true,
            };
            proof {
                assert(self@.take(i + 1).drop_last() =~= self@.take(i as int));
                assert(self@.take(i + 1).last() == self@[i as int]);
            }
            if keep {
                out.push(self.companies[i].clone_record());
                proof {
                    assert(out@.map_values(|c: Company| c@) =~= list_matches(
                        self@.take(i + 1),
                        filter,
                    ));
                }
            }
            i = i + 1;
        }
        proof {
            assert(self@.take(self@.len() as int) =~= self@);
        }
        Ok(out)
    }

    /// Fetches one record; an unknown identifier is an absent result,
    /// not a failure.
    pub fn get(&self, id: &str) -> (r: Result<Option<Company>, AppError>)
        ensures
            r is Ok,
            (r->Ok_0 is Some) == has_company(self@, id@),
            r->Ok_0 matches Some(c) ==> exists|i: int|
                0 <= i < self@.len() && self@[i].id == id@ && c@ == self@[i],
    {
        match self.find_idx(id) {
            Some(i) => Ok(Some(self.companies[i].clone_record())),
            None => Ok(None),
        }
    }

    /// Stores a new record.  The identifier is fresh and distinct
    /// from every stored identifier; a missing business key is
    /// synthesized with the fixed prefix and is distinct from every
    /// stored business key.
    pub fn create(&mut self, req: CompanyRequest, now: i64) -> (r: Result<Company, AppError>)
        requires
            old(self).wf(),
        ensures
            final(self).wf(),
            r matches Ok(c) && final(self)@ == old(self)@.push(c@),
            (r matches Ok(c) ==> {
                &&& forall|i: int| 0 <= i < old(self)@.len() ==> c@.id != old(self)@[i].id
                &&& c@.name == req@.name
                &&& (req@.cif_number is Some ==> c@.cif_number == req@.cif_number)
                &&& (req@.cif_number is None ==> {
                    &&& c@.cif_number is Some
                    &&& has_prefix(c@.cif_number->Some_0, "CIF-"@)
                    &&& forall|i: int|
                        0 <= i < old(self)@.len() && old(self)@[i].cif_number is Some
                            ==> c@.cif_number->Some_0 != old(self)@[i].cif_number->Some_0
                })
                &&& c@.billing_address == req@.billing_address
                &&& c@.postal_code == req@.postal_code
                &&& c@.city == req@.city
                &&& c@.province == req@.province
                &&& c@.industry == req@.industry
                &&& c@.industry_sub_category == req@.industry_sub_category
                &&& c@.created_at == now as int
                &&& c@.updated_at == now as int
            }),
    {
        let ids = self.all_ids();
        let id = distinct_from(fresh_uuid(), &ids);
        let cif = match req.cif_number {
            Some(s) => s,
            None => {
                let cifs = self.all_cifs();
                let base = synthesize_cif();
                let ghost base_view = base@;
                let k = distinct_from(base, &cifs);
                proof {
                    lemma_prefix_trans(k@, base_view, "CIF-"@);
                }
                k
            }
        };
        let company = Company {
            id,
            name: req.name,
            cif_number: Some(cif),
            billing_address: req.billing_address,
            postal_code: req.postal_code,
            city: req.city,
            province: req.province,
            industry: req.industry,
            industry_sub_category: req.industry_sub_category,
            created_at: now,
            updated_at: now,
        };
        let stored = company.clone_record();
        self.companies.push(stored);
        proof {
            assert(final(self)@ =~= old(self)@.push(company@));
        }
        Ok(company)
    }

    /// Overwrites the stored record under the optional-merge rule:
    /// a present request field replaces the stored value, an absent
    /// one preserves it; the creation instant never changes.  An
    /// unknown identifier leaves the store untouched and yields an
    /// absent result, not a failure.
    pub fn update(&mut self, id: &str, req: CompanyRequest, now: i64) -> (r: Result<
        Option<Company>,
        AppError,
    >)
        requires
            old(self).wf(),
        ensures
            final(self).wf(),
            r is Ok,
            (r->Ok_0 is Some) == has_company(old(self)@, id@),
            r->Ok_0 is None ==> final(self)@ == old(self)@,
            (r->Ok_0 matches Some(c) ==> exists|i: int|
                {
                    &&& 0 <= i < old(self)@.len()
                    &&& old(self)@[i].id == id@
                    &&& c@ == merged(old(self)@[i], req@, now as int)
                    &&& final(self)@ == old(self)@.update(i, c@)
                }),
    {
        match self.find_idx(id) {
            Some(i) => {
                let updated = crate::companies::models::merge_with(&self.companies[i], &req, now);
                let stored = updated.clone_record();
                self.companies.set(i, stored);
                proof {
                    assert(final(self)@ =~= old(self)@.update(i as int, updated@));
                    assert forall|p: int, q: int|
                        0 <= p < q < final(self)@.len() implies final(self)@[p].id
                        != final(self)@[q].id by {
                        assert(old(self)@[p].id != old(self)@[q].id);
                    }
                }
                Ok(Some(updated))
            }
            None => Ok(None),
        }
    }

    /// Stores a copy of the addressed record under a fresh identity:
    /// new identifier, a synthesized business key distinct from every
    /// stored one (the original's included), the copy marker appended
    /// to the name, all other fields verbatim, both timestamps at the
    /// duplication instant.  An unknown identifier leaves the store
    /// untouched and yields an absent result, not a failure.
    pub fn duplicate(&mut self, id: &str, now: i64) -> (r: Result<Option<Company>, AppError>)
        requires
            old(self).wf(),
        ensures
            final(self).wf(),
            r is Ok,
            (r->Ok_0 is Some) == has_company(old(self)@, id@),
            r->Ok_0 is None ==> final(self)@ == old(self)@,
            (r->Ok_0 matches Some(d) ==> {
                &&& final(self)@ == old(self)@.push(d@)
                &&& forall|i: int| 0 <= i < old(self)@.len() ==> d@.id != old(self)@[i].id
                &&& d@.cif_number is Some
                &&& has_prefix(d@.cif_number->Some_0, "CIF-"@)
                &&& forall|i: int|
                    0 <= i < old(self)@.len() && old(self)@[i].cif_number is Some
                        ==> d@.cif_number->Some_0 != old(self)@[i].cif_number->Some_0
                &&& d@.created_at == now as int
                &&& d@.updated_at == now as int
                &&& exists|i: int|
                    {
                        &&& 0 <= i < old(self)@.len()
                        &&& old(self)@[i].id == id@
                        &&& d@.name == old(self)@[i].name + " (copia)"@
                        &&& d@.billing_address == old(self)@[i].billing_address
                        &&& d@.postal_code == old(self)@[i].postal_code
                        &&& d@.city == old(self)@[i].city
                        &&& d@.province == old(self)@[i].province
                        &&& d@.industry == old(self)@[i].industry
                        &&& d@.industry_sub_category == old(self)@[i].industry_sub_category
                    }
            }),
    {
        let found = self.find_idx(id);
        match found {
            Some(i) => {
                let ids = self.all_ids();
                let new_id = distinct_from(fresh_uuid(), &ids);
                let cifs = self.all_cifs();
                let base = synthesize_cif();
                let ghost base_view = base@;
                let new_cif = distinct_from(base, &cifs);
                proof {
                    lemma_prefix_trans(new_cif@, base_view, "CIF-"@);
                }
                let source = &self.companies[i];
                let d = Company {
                    id: new_id,
                    name: source.name.clone().concat(" (copia)"),
                    cif_number: Some(new_cif),
                    billing_address: crate::companies::models::clone_opt(&source.billing_address),
                    postal_code: source.postal_code,
                    city: crate::companies::models::clone_opt(&source.city),
                    province: crate::companies::models::clone_opt(&source.province),
                    industry: crate::companies::models::clone_opt(&source.industry),
                    industry_sub_category: crate::companies::models::clone_opt(
                        &source.industry_sub_category,
                    ),
                    created_at: now,
                    updated_at: now,
                };
                let stored = d.clone_record();
                self.companies.push(stored);
                proof {
                    assert(final(self)@ =~= old(self)@.push(d@));
                }
                Ok(Some(d))
            }
            None => Ok(None),
        }
    }

    /// How many records the store holds.
    pub fn len(&self) -> (n: usize)
        ensures
            n == self@.len(),
    {
        self.companies.len()
    }
}

} // verus!
