use vstd::prelude::*;
use crate::request::{text_of, OrganizationProvisionRequest, RequestModel};

verus! {

/// The kind of a directory principal.
#[derive(Clone, Copy, Debug, PartialEq, Eq, Structural)]
pub enum PrincipalType {
    Individual,
    Group,
    Resource,
    Location,
    List,
    Other,
    Domain,
    Tenant,
    Role,
    ApiKey,
    OauthClient,
}

/// The closed set of attributes a principal record can carry.
#[derive(Clone, Copy, Debug, PartialEq, Eq, Structural)]
pub enum PrincipalField {
    Name,
    Description,
    BrandName,
    BrandLogoUrl,
    BrandTheme,
    Secrets,
    Emails,
    Roles,
    MemberOf,
    Members,
    Quota,
    Tenant,
}

/// The value of one attribute: a single text or a list of texts.
#[derive(Clone, Debug)]
pub enum PrincipalValue {
    String(String),
    StringList(Vec<String>),
}

pub enum ValueModel {
    Text(Seq<char>),
    List(Seq<Seq<char>>),
}

impl View for PrincipalValue {
    type V = ValueModel;

    open spec fn view(&self) -> ValueModel {
        match self {
            PrincipalValue::String(s) => ValueModel::Text(s@),
            PrincipalValue::StringList(l) => ValueModel::List(l.deep_view()),
        }
    }
}

/// A type tag and the attributes of one principal, in the order they were set.
#[derive(Clone, Debug)]
pub struct PrincipalRecord {
    typ: PrincipalType,
    fields: Vec<(PrincipalField, PrincipalValue)>,
}

pub struct RecordModel {
    pub typ: PrincipalType,
    pub fields: Seq<(PrincipalField, ValueModel)>,
}

pub open spec fn has_field(fields: Seq<(PrincipalField, ValueModel)>, f: PrincipalField) -> bool {
    exists|i: int| 0 <= i < fields.len() && fields[i].0 == f
}

/// No attribute appears twice.
pub open spec fn keys_distinct(fields: Seq<(PrincipalField, ValueModel)>) -> bool {
    forall|i: int, j: int|
        0 <= i < fields.len() && 0 <= j < fields.len() && fields[i].0 == fields[j].0 ==> i == j
}

/// The attributes after setting `f` to `v`: an attribute already present keeps
/// its place and takes the new value; a new one comes last.
pub open spec fn with_field(
    fields: Seq<(PrincipalField, ValueModel)>,
    f: PrincipalField,
    v: ValueModel,
) -> Seq<(PrincipalField, ValueModel)> {
    if has_field(fields, f) {
        let i = choose|i: int| 0 <= i < fields.len() && fields[i].0 == f;
        fields.update(i, (f, v))
    } else {
        fields.push((f, v))
    }
}

impl View for PrincipalRecord {
    type V = RecordModel;

    closed spec fn view(&self) -> RecordModel {
        RecordModel {
            typ: self.typ,
            fields: self.fields@.map_values(|e: (PrincipalField, PrincipalValue)| (e.0, e.1@)),
        }
    }
}

impl PrincipalRecord {
    pub open spec fn wf(&self) -> bool {
        keys_distinct(self@.fields)
    }

    /// A record of the given kind with no attributes.
    pub fn new(typ: PrincipalType) -> (r: PrincipalRecord)
        ensures
            r@.typ == typ,
            r@.fields == Seq::<(PrincipalField, ValueModel)>::empty(),
            r.wf(),
    {
        let r = PrincipalRecord { typ, fields: Vec::new() };
        assert(r@.fields =~= Seq::<(PrincipalField, ValueModel)>::empty());
        r
    }

    pub fn typ(&self) -> (r: PrincipalType)
        ensures
            r == self@.typ,
    {
        self.typ
    }

    /// The attributes in the order they were set.
    pub fn fields(&self) -> (r: &Vec<(PrincipalField, PrincipalValue)>)
        ensures
            r@.map_values(|e: (PrincipalField, PrincipalValue)| (e.0, e.1@)) == self@.fields,
    {
        &self.fields
    }

    /// The value of attribute `f`, if the record carries it.
    pub fn get(&self, f: PrincipalField) -> (r: Option<&PrincipalValue>)
        requires
            self.wf(),
        ensures
            r.is_some() == has_field(self@.fields, f),
            r matches Some(v) ==> exists|i: int|
                0 <= i < self@.fields.len() && self@.fields[i] == (f, v@),
    {
        let mut i: usize = 0;
        while i < self.fields.len()
            invariant
                i <= self.fields@.len(),
                forall|j: int| 0 <= j < i ==> self@.fields[j].0 != f,
            decreases self.fields@.len() - i,
        {
            if self.fields[i].0 == f {
                assert(self@.fields[i as int] == (f, self.fields@[i as int].1@));
                return Some(&self.fields[i].1);
            }
            i = i + 1;
        }
        None
    }

    /// Sets attribute `f` to `v`, replacing the value it had.
    pub fn insert(&mut self, f: PrincipalField, v: PrincipalValue)
        requires
            old(self).wf(),
        ensures
            final(self).wf(),
            final(self)@.typ == old(self)@.typ,
            final(self)@.fields == with_field(old(self)@.fields, f, v@),
    {
        let ghost before = self@.fields;
        let ghost vm = v@;
        let mut i: usize = 0;
        while i < self.fields.len()
            invariant
                i <= self.fields@.len(),
                self.fields@ == old(self).fields@,
                self.typ == old(self).typ,
                self@.fields == before,
                keys_distinct(before),
                vm == v@,
                forall|j: int| 0 <= j < i ==> before[j].0 != f,
            decreases self.fields@.len() - i,
        {
            if self.fields[i].0 == f {
                proof {
                    assert(before[i as int].0 == f);
                    let k = choose|k: int| 0 <= k < before.len() && before[k].0 == f;
                    assert(k == i);
                }
                let ghost raw = self.fields@;
                let entry = (f, v);
                let ghost e = entry;
                assert(e.1@ == vm);
                self.fields.set(i, entry);
                assert(self.fields@ == raw.update(i as int, e));
                assert forall|j: int| 0 <= j < before.len() implies
                    self@.fields[j] == before.update(i as int, (f, vm))[j] by {
                    if j != i {
                        assert(self.fields@[j] == raw[j]);
                    } else {
                        assert(self.fields@[j] == e);
                    }
                    assert(self@.fields[j] == (self.fields@[j].0, self.fields@[j].1@));
                }
                assert(self@.fields =~= before.update(i as int, (f, vm)));
                proof {
                    let after = before.update(i as int, (f, vm));
                    assert forall|a: int, b: int|
                        0 <= a < after.len() && 0 <= b < after.len() && after[a].0 == after[b].0
                        implies a == b by {
                        assert(after[a].0 == before[a].0);
                        assert(after[b].0 == before[b].0);
                    }
                }
                return;
            }
            i = i + 1;
        }
        let ghost raw = self.fields@;
        self.fields.push((f, v));
        assert(self@.fields =~= before.push((f, vm)));
        assert(!has_field(before, f));
    }
}

/// A one-attribute list when the optional text is present, else nothing.
pub open spec fn optional_text(f: PrincipalField, o: Option<Seq<char>>) -> Seq<(PrincipalField, ValueModel)> {
    match o {
        Some(s) => seq![(f, ValueModel::Text(s))],
        None => seq![],
    }
}

pub open spec fn tenant_model(req: RequestModel) -> RecordModel {
    RecordModel {
        typ: PrincipalType::Tenant,
        fields: seq![(PrincipalField::Name, ValueModel::Text(req.tenant_name))]
            + optional_text(PrincipalField::Description, req.description)
            + optional_text(PrincipalField::BrandName, req.brand_name)
            + optional_text(PrincipalField::BrandLogoUrl, req.brand_logo_url)
            + optional_text(PrincipalField::BrandTheme, req.brand_theme),
    }
}

pub open spec fn domain_model(req: RequestModel) -> RecordModel {
    RecordModel {
        typ: PrincipalType::Domain,
        fields: seq![(PrincipalField::Name, ValueModel::Text(req.domain))],
    }
}

/// The role every provisioned administrator receives.
pub open spec fn tenant_admin_role() -> Seq<char> {
    "tenant-admin"@
}

pub open spec fn admin_model(req: RequestModel) -> RecordModel {
    RecordModel {
        typ: PrincipalType::Individual,
        fields: seq![
            (PrincipalField::Name, ValueModel::Text(req.admin_name)),
            (PrincipalField::Secrets, ValueModel::List(seq![req.admin_password])),
            (PrincipalField::Emails, ValueModel::List(seq![req.admin_email])),
            (PrincipalField::Roles, ValueModel::List(seq![tenant_admin_role()])),
        ],
    }
}

proof fn lemma_insert_fresh(
    fields: Seq<(PrincipalField, ValueModel)>,
    done: Set<PrincipalField>,
    f: PrincipalField,
    v: ValueModel,
)
    requires
        forall|i: int| 0 <= i < fields.len() ==> done.contains(#[trigger] fields[i].0),
        !done.contains(f),
    ensures
        with_field(fields, f, v) == fields.push((f, v)),
        forall|i: int|
            0 <= i < fields.len() + 1 ==> done.insert(f).contains(#[trigger] fields.push((f, v))[i].0),
{
    assert(!has_field(fields, f));
    assert forall|i: int| 0 <= i < fields.len() + 1 implies done.insert(f).contains(
        #[trigger] fields.push((f, v))[i].0,
    ) by {
        if i < fields.len() {
            assert(fields.push((f, v))[i] == fields[i]);
        }
    }
}

/// Sets `f` to the text `o` holds, if it holds one.
fn insert_optional(r: &mut PrincipalRecord, f: PrincipalField, o: &Option<String>, done: Ghost<Set<PrincipalField>>)
    requires
        old(r).wf(),
        forall|i: int| 0 <= i < old(r)@.fields.len() ==> done@.contains(#[trigger] old(r)@.fields[i].0),
        !done@.contains(f),
    ensures
        final(r).wf(),
        final(r)@.typ == old(r)@.typ,
        final(r)@.fields == old(r)@.fields + optional_text(f, text_of(*o)),
        forall|i: int| 0 <= i < final(r)@.fields.len() ==> done@.insert(f).contains(#[trigger] final(r)@.fields[i].0),
{
    match o {
        Some(s) => {
            let v = PrincipalValue::String(s.clone());
            proof {
                lemma_insert_fresh(r@.fields, done@, f, v@);
            }
            r.insert(f, v);
            assert(r@.fields =~= old(r)@.fields + optional_text(f, text_of(*o)));
        },
        None => {
            assert(old(r)@.fields =~= old(r)@.fields + optional_text(f, text_of(*o)));
            assert forall|i: int| 0 <= i < r@.fields.len() implies done@.insert(f).contains(
                #[trigger] r@.fields[i].0,
            ) by {
                assert(done@.contains(r@.fields[i].0));
            }
        },
    }
}

/// The tenant record a request describes: its name, then whichever of the
/// description and the branding texts the request carries.
pub fn tenant_record(req: &OrganizationProvisionRequest) -> (r: PrincipalRecord)
    ensures
        r@ == tenant_model(req@),
        r.wf(),
{
    let mut r = PrincipalRecord::new(PrincipalType::Tenant);
    let ghost done = Set::<PrincipalField>::empty();
    proof {
        lemma_insert_fresh(r@.fields, done, PrincipalField::Name, ValueModel::Text(req.tenant_name@));
    }
    r.insert(PrincipalField::Name, PrincipalValue::String(req.tenant_name.clone()));
    let ghost done = done.insert(PrincipalField::Name);
    insert_optional(&mut r, PrincipalField::Description, &req.description, Ghost(done));
    let ghost done = done.insert(PrincipalField::Description);
    insert_optional(&mut r, PrincipalField::BrandName, &req.brand_name, Ghost(done));
    let ghost done = done.insert(PrincipalField::BrandName);
    insert_optional(&mut r, PrincipalField::BrandLogoUrl, &req.brand_logo_url, Ghost(done));
    let ghost done = done.insert(PrincipalField::BrandLogoUrl);
    insert_optional(&mut r, PrincipalField::BrandTheme, &req.brand_theme, Ghost(done));
    assert(r@.fields =~= tenant_model(req@).fields);
    r
}

/// The domain record a request describes: just its name.
pub fn domain_record(req: &OrganizationProvisionRequest) -> (r: PrincipalRecord)
    ensures
        r@ == domain_model(req@),
        r.wf(),
{
    let mut r = PrincipalRecord::new(PrincipalType::Domain);
    proof {
        lemma_insert_fresh(r@.fields, Set::empty(), PrincipalField::Name, ValueModel::Text(req.domain@));
    }
    r.insert(PrincipalField::Name, PrincipalValue::String(req.domain.clone()));
    assert(r@.fields =~= domain_model(req@).fields);
    r
}

/// A list of one text.
fn single(s: String) -> (r: PrincipalValue)
    ensures
        r@ == ValueModel::List(seq![s@]),
{
    let l = vec![s];
    assert(l.deep_view() =~= seq![s@]);
    PrincipalValue::StringList(l)
}

/// The administrator record a request describes: its name, its secret, its
/// email address and the tenant administrator role.
pub fn admin_record(req: &OrganizationProvisionRequest) -> (r: PrincipalRecord)
    ensures
        r@ == admin_model(req@),
        r.wf(),
{
    let mut r = PrincipalRecord::new(PrincipalType::Individual);
    let ghost done = Set::<PrincipalField>::empty();
    proof {
        lemma_insert_fresh(r@.fields, done, PrincipalField::Name, ValueModel::Text(req.admin_name@));
    }
    r.insert(PrincipalField::Name, PrincipalValue::String(req.admin_name.clone()));
    let ghost done = done.insert(PrincipalField::Name);
    let secret = single(req.admin_password.clone());
    proof {
        lemma_insert_fresh(r@.fields, done, PrincipalField::Secrets, secret@);
    }
    r.insert(PrincipalField::Secrets, secret);
    let ghost done = done.insert(PrincipalField::Secrets);
    let email = single(req.admin_email.clone());
    proof {
        lemma_insert_fresh(r@.fields, done, PrincipalField::Emails, email@);
    }
    r.insert(PrincipalField::Emails, email);
    let ghost done = done.insert(PrincipalField::Emails);
    let role = single("tenant-admin".to_owned());
    proof {
        lemma_insert_fresh(r@.fields, done, PrincipalField::Roles, role@);
    }
    r.insert(PrincipalField::Roles, role);
    assert(r@.fields =~= admin_model(req@).fields);
    r
}

} // verus!
