use vstd::prelude::*;

verus! {

/// What a caller sends to provision an organization: a tenant, a domain bound
/// to it, and an administrator account for it.
#[derive(Clone, Debug)]
pub struct OrganizationProvisionRequest {
    pub tenant_name: String,
    pub domain: String,
    pub admin_name: String,
    pub admin_password: String,
    pub admin_email: String,
    pub brand_name: Option<String>,
    pub brand_logo_url: Option<String>,
    pub brand_theme: Option<String>,
    pub description: Option<String>,
}

/// The mathematical value of a request: each text as its characters.
pub struct RequestModel {
    pub tenant_name: Seq<char>,
    pub domain: Seq<char>,
    pub admin_name: Seq<char>,
    pub admin_password: Seq<char>,
    pub admin_email: Seq<char>,
    pub brand_name: Option<Seq<char>>,
    pub brand_logo_url: Option<Seq<char>>,
    pub brand_theme: Option<Seq<char>>,
    pub description: Option<Seq<char>>,
}

pub open spec fn text_of(o: Option<String>) -> Option<Seq<char>> {
    match o {
        Some(s) => Some(s@),
        None => None,
    }
}

impl View for OrganizationProvisionRequest {
    type V = RequestModel;

    open spec fn view(&self) -> RequestModel {
        RequestModel {
            tenant_name: self.tenant_name@,
            domain: self.domain@,
            admin_name: self.admin_name@,
            admin_password: self.admin_password@,
            admin_email: self.admin_email@,
            brand_name: text_of(self.brand_name),
            brand_logo_url: text_of(self.brand_logo_url),
            brand_theme: text_of(self.brand_theme),
            description: text_of(self.description),
        }
    }
}

/// The fields a request must carry with a non-empty value.
#[derive(Clone, Copy, Debug, PartialEq, Eq, Structural)]
pub enum RequiredField {
    TenantName,
    Domain,
    AdminName,
    AdminPassword,
    AdminEmail,
}

impl RequiredField {
    /// The key under which the field travels in a request body.
    pub fn key(&self) -> (r: &'static str)
        ensures
            r@ == (match *self {
                RequiredField::TenantName => "tenantName"@,
                RequiredField::Domain => "domain"@,
                RequiredField::AdminName => "adminName"@,
                RequiredField::AdminPassword => "adminPassword"@,
                RequiredField::AdminEmail => "adminEmail"@,
            }),
    {
        match *self {
            RequiredField::TenantName => "tenantName",
            RequiredField::Domain => "domain",
            RequiredField::AdminName => "adminName",
            RequiredField::AdminPassword => "adminPassword",
            RequiredField::AdminEmail => "adminEmail",
        }
    }
}

/// The first required field, in the order tenant name, domain, admin name,
/// admin password, admin email, whose value is empty.
pub open spec fn first_missing(req: RequestModel) -> Option<RequiredField> {
    if req.tenant_name.len() == 0 {
        Some(RequiredField::TenantName)
    } else if req.domain.len() == 0 {
        Some(RequiredField::Domain)
    } else if req.admin_name.len() == 0 {
        Some(RequiredField::AdminName)
    } else if req.admin_password.len() == 0 {
        Some(RequiredField::AdminPassword)
    } else if req.admin_email.len() == 0 {
        Some(RequiredField::AdminEmail)
    } else {
        None
    }
}

impl OrganizationProvisionRequest {
    /// Checks the required fields in their fixed order and names the first
    /// one that is empty.
    pub fn validate(&self) -> (r: Result<(), RequiredField>)
        ensures
            r == (match first_missing(self@) {
                Some(f) => Err(f),
                None => Ok(()),
            }),
    {
        if self.tenant_name.as_str().is_empty() {
            return Err(RequiredField::TenantName);
        }
        if self.domain.as_str().is_empty() {
            return Err(RequiredField::Domain);
        }
        if self.admin_name.as_str().is_empty() {
            return Err(RequiredField::AdminName);
        }
        if self.admin_password.as_str().is_empty() {
            return Err(RequiredField::AdminPassword);
        }
        if self.admin_email.as_str().is_empty() {
            return Err(RequiredField::AdminEmail);
        }
        Ok(())
    }
}

} // verus!
