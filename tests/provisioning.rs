use org_provisioning::permission::{authorize, holds, Permission};
use org_provisioning::provision::{Command, OrganizationProvisionResponse, ProvisionError, Provisioning};
use org_provisioning::record::{
    admin_record, domain_record, tenant_record, PrincipalField, PrincipalRecord, PrincipalType,
    PrincipalValue,
};
use org_provisioning::request::{OrganizationProvisionRequest, RequiredField};
use org_provisioning::route::{is_provision_route, Method};

fn acme() -> OrganizationProvisionRequest {
    OrganizationProvisionRequest {
        tenant_name: "Acme".to_string(),
        domain: "acme.test".to_string(),
        admin_name: "Root".to_string(),
        admin_password: "x".to_string(),
        admin_email: "root@acme.test".to_string(),
        brand_name: None,
        brand_logo_url: None,
        brand_theme: None,
        description: None,
    }
}

fn all_permissions() -> Vec<Permission> {
    vec![Permission::TenantCreate, Permission::DomainCreate, Permission::IndividualCreate]
}

fn provision_path() -> Vec<String> {
    vec!["organization".to_string(), "provision".to_string()]
}

fn text(s: &str) -> PrincipalValue {
    PrincipalValue::String(s.to_string())
}

fn list(s: &str) -> PrincipalValue {
    PrincipalValue::StringList(vec![s.to_string()])
}

fn same_value(a: &PrincipalValue, b: &PrincipalValue) -> bool {
    match (a, b) {
        (PrincipalValue::String(x), PrincipalValue::String(y)) => x == y,
        (PrincipalValue::StringList(x), PrincipalValue::StringList(y)) => x == y,
        _ => false,
    }
}

fn fields_are(r: &PrincipalRecord, expected: &[(PrincipalField, PrincipalValue)]) {
    let fields = r.fields();
    assert_eq!(fields.len(), expected.len());
    for (got, want) in fields.iter().zip(expected.iter()) {
        assert_eq!(got.0, want.0);
        assert!(same_value(&got.1, &want.1), "value of {:?}", got.0);
    }
}

/// What a stand-in directory store and cache saw during a run.
#[derive(Default)]
struct Log {
    creations: Vec<(PrincipalType, Option<u32>)>,
    records: Vec<PrincipalRecord>,
    invalidations: Vec<Vec<u32>>,
    steps: Vec<&'static str>,
}

/// Drives a run: the store assigns `ids` in turn and reports `changed` for
/// each; creation number `fail_at` (if any) is refused with `"conflict"`.
fn drive(
    opened: Result<(Provisioning, Command<String>), ProvisionError<String>>,
    ids: &[u32],
    changed: &[Vec<u32>],
    fail_at: Option<usize>,
    log: &mut Log,
) -> Result<OrganizationProvisionResponse, ProvisionError<String>> {
    let (mut p, mut cmd) = opened?;
    let mut n = 0;
    loop {
        cmd = match cmd {
            Command::Create { record, parent } => {
                assert!(p.awaits_creation());
                log.steps.push("create");
                log.creations.push((record.typ(), parent));
                log.records.push(record);
                let k = n;
                n += 1;
                if fail_at == Some(k) {
                    p.on_create_failed("conflict".to_string())
                } else {
                    p.on_created(ids[k], changed[k].clone())
                }
            },
            Command::Invalidate(set) => {
                assert!(p.awaits_invalidation());
                log.steps.push("invalidate");
                log.invalidations.push(set);
                p.on_invalidated()
            },
            Command::Respond(r) => return Ok(r),
            Command::Fail(e) => return Err(e),
        };
    }
}

fn open(
    path: &Vec<String>,
    method: Method,
    granted: &Vec<Permission>,
    tenant: Option<u32>,
    req: Option<OrganizationProvisionRequest>,
) -> Result<(Provisioning, Command<String>), ProvisionError<String>> {
    Provisioning::begin::<String>(path, method, granted, tenant, req)
}

#[test]
fn acme_with_full_permissions_succeeds() {
    let mut log = Log::default();
    let opened = open(&provision_path(), Method::Post, &all_permissions(), None, Some(acme()));
    let r = drive(opened, &[1, 2, 3], &[vec![1], vec![2, 1], vec![3]], None, &mut log).unwrap();
    assert_eq!(r, OrganizationProvisionResponse { tenant_id: 1, domain_id: 2, admin_id: 3 });
    assert!(r.tenant_id > 0 && r.domain_id > 0 && r.admin_id > 0);
    assert!(r.tenant_id != r.domain_id && r.domain_id != r.admin_id && r.tenant_id != r.admin_id);
    let admin = &log.records[2];
    assert_eq!(admin.typ(), PrincipalType::Individual);
    assert!(same_value(admin.get(PrincipalField::Roles).unwrap(), &list("tenant-admin")));
}

#[test]
fn caller_without_domain_create_is_denied() {
    let mut log = Log::default();
    let granted = vec![Permission::TenantCreate, Permission::IndividualCreate];
    let opened = open(&provision_path(), Method::Post, &granted, None, Some(acme()));
    let r = drive(opened, &[1, 2, 3], &[vec![1], vec![2], vec![3]], None, &mut log);
    assert_eq!(r, Err(ProvisionError::PermissionDenied(Permission::DomainCreate)));
    assert!(log.creations.is_empty());
    assert!(log.invalidations.is_empty());
}

#[test]
fn creations_come_in_order_under_the_new_tenant() {
    let mut log = Log::default();
    let opened = open(&provision_path(), Method::Post, &all_permissions(), Some(9), Some(acme()));
    let r = drive(opened, &[40, 41, 42], &[vec![40], vec![41], vec![42]], None, &mut log).unwrap();
    assert_eq!(
        log.creations,
        vec![
            (PrincipalType::Tenant, Some(9)),
            (PrincipalType::Domain, Some(40)),
            (PrincipalType::Individual, Some(40)),
        ]
    );
    assert_eq!(r, OrganizationProvisionResponse { tenant_id: 40, domain_id: 41, admin_id: 42 });
}

#[test]
fn unscoped_caller_creates_a_top_level_tenant() {
    let mut log = Log::default();
    let opened = open(&provision_path(), Method::Post, &all_permissions(), None, Some(acme()));
    drive(opened, &[5, 6, 7], &[vec![5], vec![6], vec![7]], None, &mut log).unwrap();
    assert_eq!(log.creations[0], (PrincipalType::Tenant, None));
}

#[test]
fn each_creation_is_followed_by_its_own_invalidation() {
    let mut log = Log::default();
    let opened = open(&provision_path(), Method::Post, &all_permissions(), None, Some(acme()));
    drive(opened, &[1, 2, 3], &[vec![1, 100], vec![2], vec![3, 1, 2]], None, &mut log).unwrap();
    assert_eq!(log.steps, vec!["create", "invalidate", "create", "invalidate", "create", "invalidate"]);
    assert_eq!(log.invalidations, vec![vec![1, 100], vec![2], vec![3, 1, 2]]);
}

#[test]
fn response_ids_follow_the_store() {
    let mut log = Log::default();
    let opened = open(&provision_path(), Method::Post, &all_permissions(), None, Some(acme()));
    let r = drive(opened, &[300, 20, 1], &[vec![], vec![], vec![]], None, &mut log).unwrap();
    assert_eq!(r.tenant_id, 300);
    assert_eq!(r.domain_id, 20);
    assert_eq!(r.admin_id, 1);
}

#[test]
fn domain_failure_keeps_tenant_and_skips_admin() {
    let mut log = Log::default();
    let opened = open(&provision_path(), Method::Post, &all_permissions(), None, Some(acme()));
    let r = drive(opened, &[1, 2, 3], &[vec![1], vec![2], vec![3]], Some(1), &mut log);
    assert_eq!(r, Err(ProvisionError::Store("conflict".to_string())));
    assert_eq!(
        log.creations,
        vec![(PrincipalType::Tenant, None), (PrincipalType::Domain, Some(1))]
    );
    assert_eq!(log.invalidations, vec![vec![1]]);
}

#[test]
fn tenant_failure_stops_everything() {
    let mut log = Log::default();
    let opened = open(&provision_path(), Method::Post, &all_permissions(), None, Some(acme()));
    let r = drive(opened, &[1, 2, 3], &[vec![1], vec![2], vec![3]], Some(0), &mut log);
    assert_eq!(r, Err(ProvisionError::Store("conflict".to_string())));
    assert_eq!(log.creations.len(), 1);
    assert!(log.invalidations.is_empty());
}

#[test]
fn admin_failure_keeps_tenant_and_domain() {
    let mut log = Log::default();
    let opened = open(&provision_path(), Method::Post, &all_permissions(), None, Some(acme()));
    let r = drive(opened, &[1, 2, 3], &[vec![1], vec![2], vec![3]], Some(2), &mut log);
    assert_eq!(r, Err(ProvisionError::Store("conflict".to_string())));
    assert_eq!(log.creations.len(), 3);
    assert_eq!(log.invalidations, vec![vec![1], vec![2]]);
}

#[test]
fn each_missing_field_is_named_and_nothing_is_created() {
    let cases: Vec<(fn(&mut OrganizationProvisionRequest), RequiredField)> = vec![
        (|r| r.tenant_name.clear(), RequiredField::TenantName),
        (|r| r.domain.clear(), RequiredField::Domain),
        (|r| r.admin_name.clear(), RequiredField::AdminName),
        (|r| r.admin_password.clear(), RequiredField::AdminPassword),
        (|r| r.admin_email.clear(), RequiredField::AdminEmail),
    ];
    for (blank, field) in cases {
        let mut req = acme();
        blank(&mut req);
        let mut log = Log::default();
        let opened = open(&provision_path(), Method::Post, &all_permissions(), None, Some(req));
        let r = drive(opened, &[1, 2, 3], &[vec![1], vec![2], vec![3]], None, &mut log);
        assert_eq!(r, Err(ProvisionError::MissingField(field)));
        assert!(log.creations.is_empty());
    }
}

#[test]
fn first_empty_field_wins() {
    let mut req = acme();
    req.domain.clear();
    req.admin_email.clear();
    assert_eq!(req.validate(), Err(RequiredField::Domain));
    let mut all_empty = acme();
    all_empty.tenant_name.clear();
    all_empty.admin_name.clear();
    assert_eq!(all_empty.validate(), Err(RequiredField::TenantName));
    assert_eq!(acme().validate(), Ok(()));
}

#[test]
fn each_missing_capability_is_named_and_nothing_is_created() {
    let caps = all_permissions();
    for missing in caps.iter() {
        let granted: Vec<Permission> = caps.iter().copied().filter(|p| p != missing).collect();
        let mut bad = acme();
        bad.tenant_name.clear();
        for req in [Some(acme()), Some(bad), None] {
            let mut log = Log::default();
            let opened = open(&provision_path(), Method::Post, &granted, None, req);
            let r = drive(opened, &[1, 2, 3], &[vec![1], vec![2], vec![3]], None, &mut log);
            assert_eq!(r, Err(ProvisionError::PermissionDenied(*missing)));
            assert!(log.creations.is_empty());
        }
    }
}

#[test]
fn capabilities_are_checked_in_order() {
    assert_eq!(authorize(&vec![]), Err(Permission::TenantCreate));
    assert_eq!(authorize(&vec![Permission::TenantCreate]), Err(Permission::DomainCreate));
    assert_eq!(
        authorize(&vec![Permission::DomainCreate, Permission::TenantCreate]),
        Err(Permission::IndividualCreate)
    );
    assert_eq!(authorize(&all_permissions()), Ok(()));
    assert!(holds(&all_permissions(), Permission::DomainCreate));
    assert!(!holds(&vec![Permission::TenantCreate], Permission::DomainCreate));
}

#[test]
fn malformed_body_is_bad_parameters() {
    let r = open(&provision_path(), Method::Post, &all_permissions(), None, None);
    assert!(matches!(r, Err(ProvisionError::BadParameters)));
}

#[test]
fn other_routes_are_not_found() {
    for (path, method) in [
        (provision_path(), Method::Get),
        (provision_path(), Method::Delete),
        (vec!["organization".to_string(), "other".to_string()], Method::Post),
        (vec!["organization".to_string()], Method::Post),
        (vec![], Method::Post),
    ] {
        assert!(!is_provision_route(&path, method));
        let r = open(&path, method, &vec![], None, None);
        assert!(matches!(r, Err(ProvisionError::NotFound)));
    }
    assert!(is_provision_route(&provision_path(), Method::Post));
}

#[test]
fn tenant_record_carries_branding_when_present() {
    let mut req = acme();
    req.description = Some("Widgets".to_string());
    req.brand_name = Some("ACME".to_string());
    req.brand_logo_url = Some("https://acme.test/logo.png".to_string());
    req.brand_theme = Some("dark".to_string());
    let r = tenant_record(&req);
    assert_eq!(r.typ(), PrincipalType::Tenant);
    fields_are(
        &r,
        &[
            (PrincipalField::Name, text("Acme")),
            (PrincipalField::Description, text("Widgets")),
            (PrincipalField::BrandName, text("ACME")),
            (PrincipalField::BrandLogoUrl, text("https://acme.test/logo.png")),
            (PrincipalField::BrandTheme, text("dark")),
        ],
    );
}

#[test]
fn tenant_record_skips_absent_branding() {
    let mut req = acme();
    req.brand_theme = Some("light".to_string());
    let r = tenant_record(&req);
    fields_are(
        &r,
        &[(PrincipalField::Name, text("Acme")), (PrincipalField::BrandTheme, text("light"))],
    );
    assert!(r.get(PrincipalField::Description).is_none());
}

#[test]
fn domain_record_is_just_its_name() {
    let r = domain_record(&acme());
    assert_eq!(r.typ(), PrincipalType::Domain);
    fields_are(&r, &[(PrincipalField::Name, text("acme.test"))]);
}

#[test]
fn admin_record_holds_credentials_and_role() {
    let r = admin_record(&acme());
    assert_eq!(r.typ(), PrincipalType::Individual);
    fields_are(
        &r,
        &[
            (PrincipalField::Name, text("Root")),
            (PrincipalField::Secrets, list("x")),
            (PrincipalField::Emails, list("root@acme.test")),
            (PrincipalField::Roles, list("tenant-admin")),
        ],
    );
}

#[test]
fn insert_replaces_in_place() {
    let mut r = PrincipalRecord::new(PrincipalType::Tenant);
    r.insert(PrincipalField::Name, text("a"));
    r.insert(PrincipalField::Description, text("b"));
    r.insert(PrincipalField::Name, text("c"));
    fields_are(&r, &[(PrincipalField::Name, text("c")), (PrincipalField::Description, text("b"))]);
    assert!(same_value(r.get(PrincipalField::Name).unwrap(), &text("c")));
}

#[test]
fn required_field_keys() {
    assert_eq!(RequiredField::TenantName.key(), "tenantName");
    assert_eq!(RequiredField::Domain.key(), "domain");
    assert_eq!(RequiredField::AdminName.key(), "adminName");
    assert_eq!(RequiredField::AdminPassword.key(), "adminPassword");
    assert_eq!(RequiredField::AdminEmail.key(), "adminEmail");
}
