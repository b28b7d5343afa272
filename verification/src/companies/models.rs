//! The company entity, its request shapes, and the lifecycle rules
//! every backend must apply: creation, field-level optional-merge
//! updates, and duplication.

use vstd::prelude::*;
use crate::ids::{fresh_uuid, leading_segment, now_millis};
use crate::text::has_prefix;

verus! {

/// A company record as every backend stores and serves it.
/// Timestamps are milliseconds since the Unix epoch.
pub struct Company {
    pub id: String,
    pub name: String,
    pub cif_number: Option<String>,
    pub billing_address: Option<String>,
    pub postal_code: Option<i32>,
    pub city: Option<String>,
    pub province: Option<String>,
    pub industry: Option<String>,
    pub industry_sub_category: Option<String>,
    pub created_at: i64,
    pub updated_at: i64,
}

/// The mathematical value of a [`Company`].
pub ghost struct CompanyV {
    pub id: Seq<char>,
    pub name: Seq<char>,
    pub cif_number: Option<Seq<char>>,
    pub billing_address: Option<Seq<char>>,
    pub postal_code: Option<i32>,
    pub city: Option<Seq<char>>,
    pub province: Option<Seq<char>>,
    pub industry: Option<Seq<char>>,
    pub industry_sub_category: Option<Seq<char>>,
    pub created_at: int,
    pub updated_at: int,
}

/// The value of an optional text field.
pub open spec fn opt_view(o: Option<String>) -> Option<Seq<char>> {
    match o {
        Some(s) => Some(s@),
        None => None,
    }
}

impl View for Company {
    type V = CompanyV;

    open spec fn view(&self) -> CompanyV {
        CompanyV {
            id: self.id@,
            name: self.name@,
            cif_number: opt_view(self.cif_number),
            billing_address: opt_view(self.billing_address),
            postal_code: self.postal_code,
            city: opt_view(self.city),
            province: opt_view(self.province),
            industry: opt_view(self.industry),
            industry_sub_category: opt_view(self.industry_sub_category),
            created_at: self.created_at as int,
            updated_at: self.updated_at as int,
        }
    }
}

/// A create or partial-update request.  `name` is required; every
/// other field is optional and, on update, an absent field preserves
/// the stored value.
pub struct CompanyRequest {
    pub name: String,
    pub cif_number: Option<String>,
    pub billing_address: Option<String>,
    pub postal_code: Option<i32>,
    pub city: Option<String>,
    pub province: Option<String>,
    pub industry: Option<String>,
    pub industry_sub_category: Option<String>,
}

/// The mathematical value of a [`CompanyRequest`].
pub ghost struct CompanyRequestV {
    pub name: Seq<char>,
    pub cif_number: Option<Seq<char>>,
    pub billing_address: Option<Seq<char>>,
    pub postal_code: Option<i32>,
    pub city: Option<Seq<char>>,
    pub province: Option<Seq<char>>,
    pub industry: Option<Seq<char>>,
    pub industry_sub_category: Option<Seq<char>>,
}

impl View for CompanyRequest {
    type V = CompanyRequestV;

    open spec fn view(&self) -> CompanyRequestV {
        CompanyRequestV {
            name: self.name@,
            cif_number: opt_view(self.cif_number),
            billing_address: opt_view(self.billing_address),
            postal_code: self.postal_code,
            city: opt_view(self.city),
            province: opt_view(self.province),
            industry: opt_view(self.industry),
            industry_sub_category: opt_view(self.industry_sub_category),
        }
    }
}

/// The query string of the list endpoint: an optional name filter.
pub struct CompanyQuery {
    pub name: Option<String>,
}

/// A row of the relational `company` table, as plain values.
pub struct CompanyRow {
    pub id: String,
    pub name: String,
    pub cif_number: Option<String>,
    pub billing_address: Option<String>,
    pub postal_code: Option<i32>,
    pub city: Option<String>,
    pub province: Option<String>,
    pub industry: Option<String>,
    pub industry_sub_category: Option<String>,
    pub created_at: i64,
    pub updated_at: i64,
}

impl View for CompanyRow {
    type V = CompanyV;

    open spec fn view(&self) -> CompanyV {
        CompanyV {
            id: self.id@,
            name: self.name@,
            cif_number: opt_view(self.cif_number),
            billing_address: opt_view(self.billing_address),
            postal_code: self.postal_code,
            city: opt_view(self.city),
            province: opt_view(self.province),
            industry: opt_view(self.industry),
            industry_sub_category: opt_view(self.industry_sub_category),
            created_at: self.created_at as int,
            updated_at: self.updated_at as int,
        }
    }
}

/// Copies an optional text field.
pub fn clone_opt(o: &Option<String>) -> (r: Option<String>)
    ensures
        opt_view(r) == opt_view(*o),
{
    match o {
        Some(s) => Some(s.clone()),
        None => None,
    }
}

/// The first operand when present, otherwise the second: the
/// field-level rule of the optional-merge update.
pub fn pick(fresh: &Option<String>, stored: &Option<String>) -> (r: Option<String>)
    ensures
        opt_view(*fresh) is Some ==> opt_view(r) == opt_view(*fresh),
        opt_view(*fresh) is None ==> opt_view(r) == opt_view(*stored),
{
    match fresh {
        Some(s) => Some(s.clone()),
        None => clone_opt(stored),
    }
}

/// The stored value after an optional-merge update: a present request
/// field replaces the stored one, an absent field preserves it; the
/// identifier and creation instant never change; the update instant
/// is always refreshed.
pub open spec fn merged(current: CompanyV, req: CompanyRequestV, now: int) -> CompanyV {
    CompanyV {
        id: current.id,
        name: req.name,
        cif_number: if req.cif_number is Some { req.cif_number } else { current.cif_number },
        billing_address: if req.billing_address is Some {
            req.billing_address
        } else {
            current.billing_address
        },
        postal_code: if req.postal_code is Some { req.postal_code } else { current.postal_code },
        city: if req.city is Some { req.city } else { current.city },
        province: if req.province is Some { req.province } else { current.province },
        industry: if req.industry is Some { req.industry } else { current.industry },
        industry_sub_category: if req.industry_sub_category is Some {
            req.industry_sub_category
        } else {
            current.industry_sub_category
        },
        created_at: current.created_at,
        updated_at: now,
    }
}

/// A partial update preserves omitted fields: for every stored
/// record and every update request, a field absent from the request
/// keeps the stored value, and the identifier and creation instant
/// survive every update.
pub proof fn lemma_update_preserves_omitted_fields(
    current: CompanyV,
    req: CompanyRequestV,
    now: int,
)
    ensures
        req.cif_number is None ==> merged(current, req, now).cif_number == current.cif_number,
        req.billing_address is None ==> merged(current, req, now).billing_address
            == current.billing_address,
        req.postal_code is None ==> merged(current, req, now).postal_code == current.postal_code,
        req.city is None ==> merged(current, req, now).city == current.city,
        req.province is None ==> merged(current, req, now).province == current.province,
        req.industry is None ==> merged(current, req, now).industry == current.industry,
        req.industry_sub_category is None ==> merged(current, req, now).industry_sub_category
            == current.industry_sub_category,
        merged(current, req, now).id == current.id,
        merged(current, req, now).created_at == current.created_at,
        merged(current, req, now).updated_at == now,
{
}

/// Applies the optional-merge rule of [`merged`] to a stored record.
pub fn merge_with(current: &Company, req: &CompanyRequest, now: i64) -> (c: Company)
    ensures
        c@ == merged(current@, req@, now as int),
{
    Company {
        id: current.id.clone(),
        name: req.name.clone(),
        cif_number: pick(&req.cif_number, &current.cif_number),
        billing_address: pick(&req.billing_address, &current.billing_address),
        postal_code: if req.postal_code.is_some() { req.postal_code } else { current.postal_code },
        city: pick(&req.city, &current.city),
        province: pick(&req.province, &current.province),
        industry: pick(&req.industry, &current.industry),
        industry_sub_category: pick(&req.industry_sub_category, &current.industry_sub_category),
        created_at: current.created_at,
        updated_at: now,
    }
}

impl Company {
    /// A blank record: fresh identifier, the given name, no optional
    /// fields, both timestamps set to the same creation instant.
    pub fn new(name: String) -> (c: Company)
        ensures
            c@.id.len() == 36,
            c@.name == name@,
            c@.cif_number is None,
            c@.billing_address is None,
            c@.postal_code is None,
            c@.city is None,
            c@.province is None,
            c@.industry is None,
            c@.industry_sub_category is None,
            c@.created_at == c@.updated_at,
    {
        let now = now_millis();
        Company {
            id: fresh_uuid(),
            name,
            cif_number: None,
            billing_address: None,
            postal_code: None,
            city: None,
            province: None,
            industry: None,
            industry_sub_category: None,
            created_at: now,
            updated_at: now,
        }
    }

    /// Renames the record and refreshes its update instant; every
    /// other field, the identifier and the creation instant included,
    /// is untouched.
    pub fn update(&mut self, name: String)
        ensures
            final(self)@.name == name@,
            final(self)@.id == old(self)@.id,
            final(self)@.cif_number == old(self)@.cif_number,
            final(self)@.billing_address == old(self)@.billing_address,
            final(self)@.postal_code == old(self)@.postal_code,
            final(self)@.city == old(self)@.city,
            final(self)@.province == old(self)@.province,
            final(self)@.industry == old(self)@.industry,
            final(self)@.industry_sub_category == old(self)@.industry_sub_category,
            final(self)@.created_at == old(self)@.created_at,
    {
        self.name = name;
        self.updated_at = now_millis();
    }

    /// A copy under a fresh identity: new identifier, no business key
    /// (the caller synthesizes one), the name extended with the copy
    /// marker, all other fields verbatim, both timestamps reset to
    /// the same duplication instant.
    pub fn duplicate(&self) -> (d: Company)
        ensures
            d@.id.len() == 36,
            d@.name == self@.name + " (copia)"@,
            d@.cif_number is None,
            d@.billing_address == self@.billing_address,
            d@.postal_code == self@.postal_code,
            d@.city == self@.city,
            d@.province == self@.province,
            d@.industry == self@.industry,
            d@.industry_sub_category == self@.industry_sub_category,
            d@.created_at == d@.updated_at,
    {
        let now = now_millis();
        Company {
            id: fresh_uuid(),
            name: self.name.clone().concat(" (copia)"),
            cif_number: None,
            billing_address: clone_opt(&self.billing_address),
            postal_code: self.postal_code,
            city: clone_opt(&self.city),
            province: clone_opt(&self.province),
            industry: clone_opt(&self.industry),
            industry_sub_category: clone_opt(&self.industry_sub_category),
            created_at: now,
            updated_at: now,
        }
    }

    /// Copies the record value for value.
    pub fn clone_record(&self) -> (c: Company)
        ensures
            c@ == self@,
    {
        Company {
            id: self.id.clone(),
            name: self.name.clone(),
            cif_number: clone_opt(&self.cif_number),
            billing_address: clone_opt(&self.billing_address),
            postal_code: self.postal_code,
            city: clone_opt(&self.city),
            province: clone_opt(&self.province),
            industry: clone_opt(&self.industry),
            industry_sub_category: clone_opt(&self.industry_sub_category),
            created_at: self.created_at,
            updated_at: self.updated_at,
        }
    }

    /// Turns a relational row into the entity it stores.
    pub fn from_row(row: CompanyRow) -> (c: Company)
        ensures
            c@ == row@,
    {
        Company {
            id: row.id,
            name: row.name,
            cif_number: row.cif_number,
            billing_address: row.billing_address,
            postal_code: row.postal_code,
            city: row.city,
            province: row.province,
            industry: row.industry,
            industry_sub_category: row.industry_sub_category,
            created_at: row.created_at,
            updated_at: row.updated_at,
        }
    }
}

impl CompanyRequest {
    /// The record a create request describes, under a fresh identity:
    /// every requested field taken as given (the business key
    /// included, when present) and both timestamps set to the same
    /// creation instant.
    pub fn to_company(self) -> (c: Company)
        ensures
            c@.id.len() == 36,
            c@.name == self@.name,
            c@.cif_number == self@.cif_number,
            c@.billing_address == self@.billing_address,
            c@.postal_code == self@.postal_code,
            c@.city == self@.city,
            c@.province == self@.province,
            c@.industry == self@.industry,
            c@.industry_sub_category == self@.industry_sub_category,
            c@.created_at == c@.updated_at,
    {
        let now = now_millis();
        Company {
            id: fresh_uuid(),
            name: self.name,
            cif_number: self.cif_number,
            billing_address: self.billing_address,
            postal_code: self.postal_code,
            city: self.city,
            province: self.province,
            industry: self.industry,
            industry_sub_category: self.industry_sub_category,
            created_at: now,
            updated_at: now,
        }
    }
}

/// A freshly synthesized business key: the fixed prefix followed by
/// the leading segment of a random identifier.  The relational
/// backend leans on its unique-column constraint for uniqueness; the
/// in-memory backend checks the key against existing records instead
/// (see the repository).
pub fn synthesize_cif() -> (k: String)
    ensures
        has_prefix(k@, "CIF-"@),
{
    let u = fresh_uuid();
    let seg = leading_segment(u.as_str());
    let k = String::from_str("CIF-").concat(seg.as_str());
    proof {
        assert(k@.subrange(0, "CIF-"@.len() as int) =~= "CIF-"@);
    }
    k
}

/// The record the relational backend inserts for a create request:
/// the requested business key when present, a synthesized one
/// otherwise; a fresh identifier; both timestamps at `now`.
pub fn plan_create(req: CompanyRequest, now: i64) -> (c: Company)
    ensures
        c@.id.len() == 36,
        c@.name == req@.name,
        c@.cif_number is Some,
        req@.cif_number is Some ==> c@.cif_number == req@.cif_number,
        req@.cif_number is None ==> has_prefix(c@.cif_number->Some_0, "CIF-"@),
        c@.billing_address == req@.billing_address,
        c@.postal_code == req@.postal_code,
        c@.city == req@.city,
        c@.province == req@.province,
        c@.industry == req@.industry,
        c@.industry_sub_category == req@.industry_sub_category,
        c@.created_at == now as int,
        c@.updated_at == now as int,
{
    let cif = match &req.cif_number {
        Some(s) => s.clone(),
        None => synthesize_cif(),
    };
    Company {
        id: fresh_uuid(),
        name: req.name,
        cif_number: Some(cif),
        billing_address: req.billing_address,
        postal_code: req.postal_code,
        city: req.city,
        province: req.province,
        industry: req.industry,
        industry_sub_category: req.industry_sub_category,
        created_at: now,
        updated_at: now,
    }
}

/// The record the relational backend inserts when duplicating: the
/// same plan as [`Company::duplicate`], with a synthesized business
/// key and the duplication instant supplied by the caller.
pub fn plan_duplicate(original: &Company, now: i64) -> (d: Company)
    ensures
        d@.id.len() == 36,
        d@.name == original@.name + " (copia)"@,
        d@.cif_number is Some,
        has_prefix(d@.cif_number->Some_0, "CIF-"@),
        d@.billing_address == original@.billing_address,
        d@.postal_code == original@.postal_code,
        d@.city == original@.city,
        d@.province == original@.province,
        d@.industry == original@.industry,
        d@.industry_sub_category == original@.industry_sub_category,
        d@.created_at == now as int,
        d@.updated_at == now as int,
{
    Company {
        id: fresh_uuid(),
        name: original.name.clone().concat(" (copia)"),
        cif_number: Some(synthesize_cif()),
        billing_address: clone_opt(&original.billing_address),
        postal_code: original.postal_code,
        city: clone_opt(&original.city),
        province: clone_opt(&original.province),
        industry: clone_opt(&original.industry),
        industry_sub_category: clone_opt(&original.industry_sub_category),
        created_at: now,
        updated_at: now,
    }
}

} // verus!
