//! The per-family transforms from a ledger message to its records at a block.
use vstd::prelude::*;
use crate::models::{
    MAX_BLOCK_NUM, NewAccreditation, NewAddress, NewAgent, NewAuthorization, NewCertificate,
    NewContact, NewOrganization, NewRequest, NewStandard, NewStandardVersion, OrganizationRecords,
    OrganizationTypeEnum, RequestStatusEnum, RoleEnum, StandardRecords,
};
use crate::proto::{
    Accreditation, Agent, AgentContainer, Authorization, AuthorizationRole, Certificate,
    CertificateContainer, Contact, FactoryAddress, Organization, OrganizationContainer,
    OrganizationType, Request, RequestContainer, RequestStatus, Standard, StandardContainer,
    StandardVersion,
};
use crate::transformer::{Container, FromStateAtBlock};

verus! {

/// An empty text stands for an absent value.
pub open spec fn spec_optional_text(s: String) -> Option<String> {
    if s@.len() == 0 {
        None
    } else {
        Some(s)
    }
}

fn optional_text(s: &String) -> (r: Option<String>)
    ensures
        r == spec_optional_text(*s),
{
    if s.as_str().is_empty() {
        None
    } else {
        Some(s.clone())
    }
}

pub open spec fn spec_organization_type(t: OrganizationType) -> OrganizationTypeEnum {
    match t {
        OrganizationType::CertifyingBody => OrganizationTypeEnum::CertifyingBody,
        OrganizationType::StandardsBody => OrganizationTypeEnum::StandardsBody,
        OrganizationType::Factory => OrganizationTypeEnum::Factory,
        OrganizationType::UnsetType => OrganizationTypeEnum::UnsetType,
    }
}

fn organization_type(t: OrganizationType) -> (r: OrganizationTypeEnum)
    ensures
        r == spec_organization_type(t),
{
    match t {
        OrganizationType::CertifyingBody => OrganizationTypeEnum::CertifyingBody,
        OrganizationType::StandardsBody => OrganizationTypeEnum::StandardsBody,
        OrganizationType::Factory => OrganizationTypeEnum::Factory,
        OrganizationType::UnsetType => OrganizationTypeEnum::UnsetType,
    }
}

pub open spec fn spec_role(role: AuthorizationRole) -> RoleEnum {
    match role {
        AuthorizationRole::Admin => RoleEnum::Admin,
        AuthorizationRole::Transactor => RoleEnum::Transactor,
        AuthorizationRole::UnsetRole => RoleEnum::UnsetRole,
    }
}

fn authorization_role(role: AuthorizationRole) -> (r: RoleEnum)
    ensures
        r == spec_role(role),
{
    match role {
        AuthorizationRole::Admin => RoleEnum::Admin,
        AuthorizationRole::Transactor => RoleEnum::Transactor,
        AuthorizationRole::UnsetRole => RoleEnum::UnsetRole,
    }
}

pub open spec fn spec_request_status(status: RequestStatus) -> RequestStatusEnum {
    match status {
        RequestStatus::Open => RequestStatusEnum::Open,
        RequestStatus::InProgress => RequestStatusEnum::InProgress,
        RequestStatus::Closed => RequestStatusEnum::Closed,
        RequestStatus::Certified => RequestStatusEnum::Certified,
        RequestStatus::UnsetStatus => RequestStatusEnum::UnsetStatus,
    }
}

fn request_status(status: RequestStatus) -> (r: RequestStatusEnum)
    ensures
        r == spec_request_status(status),
{
    match status {
        RequestStatus::Open => RequestStatusEnum::Open,
        RequestStatus::InProgress => RequestStatusEnum::InProgress,
        RequestStatus::Closed => RequestStatusEnum::Closed,
        RequestStatus::Certified => RequestStatusEnum::Certified,
        RequestStatus::UnsetStatus => RequestStatusEnum::UnsetStatus,
    }
}

pub open spec fn spec_accreditation(org_id: String, a: Accreditation, n: i64) -> NewAccreditation {
    NewAccreditation {
        organization_id: org_id,
        standard_id: a.standard_id,
        standard_version: a.standard_version,
        accreditor_id: a.accreditor_id,
        valid_from: a.valid_from as i64,
        valid_to: a.valid_to as i64,
        start_block_num: n,
        end_block_num: MAX_BLOCK_NUM,
    }
}

pub open spec fn spec_authorization(org_id: String, a: Authorization, n: i64) -> NewAuthorization {
    NewAuthorization {
        organization_id: org_id,
        public_key: a.public_key,
        role: spec_role(a.role),
        start_block_num: n,
        end_block_num: MAX_BLOCK_NUM,
    }
}

pub open spec fn spec_contact(org_id: String, c: Contact, n: i64) -> NewContact {
    NewContact {
        organization_id: org_id,
        name: c.name,
        phone_number: c.phone_number,
        language_code: c.language_code,
        start_block_num: n,
        end_block_num: MAX_BLOCK_NUM,
    }
}

pub open spec fn spec_address(org_id: String, a: FactoryAddress, n: i64) -> NewAddress {
    NewAddress {
        organization_id: org_id,
        street_line_1: a.street_line_1,
        street_line_2: spec_optional_text(a.street_line_2),
        city: a.city,
        state_province: spec_optional_text(a.state_province),
        country: a.country,
        postal_code: spec_optional_text(a.postal_code),
        start_block_num: n,
        end_block_num: MAX_BLOCK_NUM,
    }
}

pub open spec fn spec_new_organization(org: Organization, n: i64) -> NewOrganization {
    NewOrganization {
        organization_id: org.id,
        name: org.name,
        organization_type: spec_organization_type(org.organization_type),
        start_block_num: n,
        end_block_num: MAX_BLOCK_NUM,
    }
}

/// The accreditations stored for `org`: present exactly for a certifying body.
pub open spec fn accreditations_match(org: Organization, n: i64, r: Option<Vec<NewAccreditation>>) -> bool {
    if org.organization_type == OrganizationType::CertifyingBody {
        &&& r is Some
        &&& r->0@ == org.certifying_body_details.accreditations@.map_values(
            |a: Accreditation| spec_accreditation(org.id, a, n),
        )
    } else {
        r is None
    }
}

/// The address stored for `org`: present exactly for a factory that has one.
pub open spec fn address_matches(org: Organization, n: i64, r: Option<NewAddress>) -> bool {
    if org.organization_type == OrganizationType::Factory {
        match org.factory_details.address {
            Some(a) => r == Some(spec_address(org.id, a, n)),
            None => r is None,
        }
    } else {
        r is None
    }
}

fn accreditation_at_block(org_id: &String, a: &Accreditation, n: i64) -> (r: NewAccreditation)
    ensures
        r == spec_accreditation(*org_id, *a, n),
{
    NewAccreditation {
        organization_id: org_id.clone(),
        standard_id: a.standard_id.clone(),
        standard_version: a.standard_version.clone(),
        accreditor_id: a.accreditor_id.clone(),
        valid_from: a.valid_from as i64,
        valid_to: a.valid_to as i64,
        start_block_num: n,
        end_block_num: MAX_BLOCK_NUM,
    }
}

fn address_at_block(org_id: &String, a: &FactoryAddress, n: i64) -> (r: NewAddress)
    ensures
        r == spec_address(*org_id, *a, n),
{
    NewAddress {
        organization_id: org_id.clone(),
        street_line_1: a.street_line_1.clone(),
        street_line_2: optional_text(&a.street_line_2),
        city: a.city.clone(),
        state_province: optional_text(&a.state_province),
        country: a.country.clone(),
        postal_code: optional_text(&a.postal_code),
        start_block_num: n,
        end_block_num: MAX_BLOCK_NUM,
    }
}

fn accreditations_at_block(org_id: &String, accs: &Vec<Accreditation>, n: i64) -> (r: Vec<
    NewAccreditation,
>)
    ensures
        r@ == accs@.map_values(|a: Accreditation| spec_accreditation(*org_id, a, n)),
{
    let mut out: Vec<NewAccreditation> = Vec::new();
    let mut i: usize = 0;
    while i < accs.len()
        invariant
            i <= accs@.len(),
            out@ == accs@.subrange(0, i as int).map_values(
                |a: Accreditation| spec_accreditation(*org_id, a, n),
            ),
        decreases accs@.len() - i,
    {
        out.push(accreditation_at_block(org_id, &accs[i], n));
        i = i + 1;
        proof {
            assert(accs@.subrange(0, i as int).drop_last() =~= accs@.subrange(0, i - 1));
        }
    }
    proof {
        assert(accs@.subrange(0, i as int) =~= accs@);
    }
    out
}

fn authorizations_at_block(org_id: &String, auths: &Vec<Authorization>, n: i64) -> (r: Vec<
    NewAuthorization,
>)
    ensures
        r@ == auths@.map_values(|a: Authorization| spec_authorization(*org_id, a, n)),
{
    let mut out: Vec<NewAuthorization> = Vec::new();
    let mut i: usize = 0;
    while i < auths.len()
        invariant
            i <= auths@.len(),
            out@ == auths@.subrange(0, i as int).map_values(
                |a: Authorization| spec_authorization(*org_id, a, n),
            ),
        decreases auths@.len() - i,
    {
        let a = &auths[i];
        out.push(
            NewAuthorization {
                organization_id: org_id.clone(),
                public_key: a.public_key.clone(),
                role: authorization_role(a.role),
                start_block_num: n,
                end_block_num: MAX_BLOCK_NUM,
            },
        );
        i = i + 1;
        proof {
            assert(auths@.subrange(0, i as int).drop_last() =~= auths@.subrange(0, i - 1));
        }
    }
    proof {
        assert(auths@.subrange(0, i as int) =~= auths@);
    }
    out
}

fn contacts_at_block(org_id: &String, contacts: &Vec<Contact>, n: i64) -> (r: Vec<NewContact>)
    ensures
        r@ == contacts@.map_values(|c: Contact| spec_contact(*org_id, c, n)),
{
    let mut out: Vec<NewContact> = Vec::new();
    let mut i: usize = 0;
    while i < contacts.len()
        invariant
            i <= contacts@.len(),
            out@ == contacts@.subrange(0, i as int).map_values(
                |c: Contact| spec_contact(*org_id, c, n),
            ),
        decreases contacts@.len() - i,
    {
        let c = &contacts[i];
        out.push(
            NewContact {
                organization_id: org_id.clone(),
                name: c.name.clone(),
                phone_number: c.phone_number.clone(),
                language_code: c.language_code.clone(),
                start_block_num: n,
                end_block_num: MAX_BLOCK_NUM,
            },
        );
        i = i + 1;
        proof {
            assert(contacts@.subrange(0, i as int).drop_last() =~= contacts@.subrange(0, i - 1));
        }
    }
    proof {
        assert(contacts@.subrange(0, i as int) =~= contacts@);
    }
    out
}

/// The shape of an organization's records: a certifying body has one accreditation
/// per entry and no address; a factory has its address when it has one and no
/// accreditations; authorizations and contacts are there for every type.
pub proof fn lemma_organization_records_shape(org: Organization, n: i64, r: OrganizationRecords)
    requires
        <OrganizationRecords as FromStateAtBlock<Organization>>::is_at_block(n, org, r),
    ensures
        org.organization_type == OrganizationType::CertifyingBody ==> {
            &&& r.1 matches Some(accs)
            &&& accs@.len() == org.certifying_body_details.accreditations@.len()
            &&& r.2 is None
        },
        org.organization_type == OrganizationType::Factory ==> {
            &&& r.1 is None
            &&& (r.2 is Some <==> org.factory_details.address is Some)
        },
        org.organization_type != OrganizationType::CertifyingBody ==> r.1 is None,
        org.organization_type != OrganizationType::Factory ==> r.2 is None,
        r.3@.len() == org.authorizations@.len(),
        r.4@.len() == org.contacts@.len(),
{
}

impl FromStateAtBlock<Organization> for OrganizationRecords {
    open spec fn is_at_block(block_num: i64, org: Organization, r: Self) -> bool {
        &&& r.0 == spec_new_organization(org, block_num)
        &&& accreditations_match(org, block_num, r.1)
        &&& address_matches(org, block_num, r.2)
        &&& r.3@ == org.authorizations@.map_values(
            |a: Authorization| spec_authorization(org.id, a, block_num),
        )
        &&& r.4@ == org.contacts@.map_values(|c: Contact| spec_contact(org.id, c, block_num))
    }

    fn at_block(block_num: i64, org: &Organization) -> (r: Self) {
        let new_org = NewOrganization {
            organization_id: org.id.clone(),
            name: org.name.clone(),
            organization_type: organization_type(org.organization_type),
            start_block_num: block_num,
            end_block_num: MAX_BLOCK_NUM,
        };
        let new_accreditations = match org.organization_type {
            OrganizationType::CertifyingBody => Some(
                accreditations_at_block(
                    &org.id,
                    &org.certifying_body_details.accreditations,
                    block_num,
                ),
            ),
            _ => None,
        };
        let new_auths = authorizations_at_block(&org.id, &org.authorizations, block_num);
        let new_contacts = contacts_at_block(&org.id, &org.contacts, block_num);
        let new_address = match org.organization_type {
            OrganizationType::Factory => match &org.factory_details.address {
                Some(address) => Some(address_at_block(&org.id, address, block_num)),
                None => None,
            },
            _ => None,
        };
        (new_org, new_accreditations, new_address, new_auths, new_contacts)
    }
}

pub open spec fn spec_new_agent(agent: Agent, n: i64) -> NewAgent {
    NewAgent {
        public_key: agent.public_key,
        organization_id: spec_optional_text(agent.organization_id),
        name: agent.name,
        timestamp: agent.timestamp as i64,
        start_block_num: n,
        end_block_num: MAX_BLOCK_NUM,
    }
}

impl FromStateAtBlock<Agent> for NewAgent {
    open spec fn is_at_block(block_num: i64, agent: Agent, r: Self) -> bool {
        r == spec_new_agent(agent, block_num)
    }

    fn at_block(block_num: i64, agent: &Agent) -> (r: Self) {
        NewAgent {
            public_key: agent.public_key.clone(),
            organization_id: optional_text(&agent.organization_id),
            name: agent.name.clone(),
            timestamp: agent.timestamp as i64,
            start_block_num: block_num,
            end_block_num: MAX_BLOCK_NUM,
        }
    }
}

pub open spec fn spec_new_certificate(c: Certificate, n: i64) -> NewCertificate {
    NewCertificate {
        certificate_id: c.id,
        certifying_body_id: c.certifying_body_id,
        factory_id: c.factory_id,
        standard_id: c.standard_id,
        standard_version: c.standard_version,
        valid_from: c.valid_from as i64,
        valid_to: c.valid_to as i64,
        start_block_num: n,
        end_block_num: MAX_BLOCK_NUM,
    }
}

impl FromStateAtBlock<Certificate> for NewCertificate {
    open spec fn is_at_block(block_num: i64, c: Certificate, r: Self) -> bool {
        r == spec_new_certificate(c, block_num)
    }

    fn at_block(block_num: i64, certificate: &Certificate) -> (r: Self) {
        NewCertificate {
            certificate_id: certificate.id.clone(),
            certifying_body_id: certificate.certifying_body_id.clone(),
            factory_id: certificate.factory_id.clone(),
            standard_id: certificate.standard_id.clone(),
            standard_version: certificate.standard_version.clone(),
            valid_from: certificate.valid_from as i64,
            valid_to: certificate.valid_to as i64,
            start_block_num: block_num,
            end_block_num: MAX_BLOCK_NUM,
        }
    }
}

pub open spec fn spec_new_request(req: Request, n: i64) -> NewRequest {
    NewRequest {
        request_id: req.id,
        factory_id: req.factory_id,
        standard_id: req.standard_id,
        status: spec_request_status(req.status),
        request_date: req.request_date as i64,
        start_block_num: n,
        end_block_num: MAX_BLOCK_NUM,
    }
}

impl FromStateAtBlock<Request> for NewRequest {
    open spec fn is_at_block(block_num: i64, req: Request, r: Self) -> bool {
        r == spec_new_request(req, block_num)
    }

    fn at_block(block_num: i64, request: &Request) -> (r: Self) {
        NewRequest {
            request_id: request.id.clone(),
            factory_id: request.factory_id.clone(),
            standard_id: request.standard_id.clone(),
            status: request_status(request.status),
            request_date: request.request_date as i64,
            start_block_num: block_num,
            end_block_num: MAX_BLOCK_NUM,
        }
    }
}

pub open spec fn spec_new_standard(s: Standard, n: i64) -> NewStandard {
    NewStandard {
        standard_id: s.id,
        organization_id: s.organization_id,
        name: s.name,
        start_block_num: n,
        end_block_num: MAX_BLOCK_NUM,
    }
}

pub open spec fn spec_standard_version(standard_id: String, v: StandardVersion, n: i64) -> NewStandardVersion {
    NewStandardVersion {
        standard_id: standard_id,
        version: v.version,
        link: v.link,
        description: v.description,
        approval_date: v.approval_date as i64,
        start_block_num: n,
        end_block_num: MAX_BLOCK_NUM,
    }
}

impl FromStateAtBlock<Standard> for StandardRecords {
    open spec fn is_at_block(block_num: i64, s: Standard, r: Self) -> bool {
        &&& r.0 == spec_new_standard(s, block_num)
        &&& r.1@ == s.versions@.map_values(
            |v: StandardVersion| spec_standard_version(s.id, v, block_num),
        )
    }

    fn at_block(block_num: i64, standard: &Standard) -> (r: Self) {
        let db_standard = NewStandard {
            standard_id: standard.id.clone(),
            organization_id: standard.organization_id.clone(),
            name: standard.name.clone(),
            start_block_num: block_num,
            end_block_num: MAX_BLOCK_NUM,
        };
        let versions = &standard.versions;
        let mut db_versions: Vec<NewStandardVersion> = Vec::new();
        let mut i: usize = 0;
        while i < versions.len()
            invariant
                i <= versions@.len(),
                db_versions@ == versions@.subrange(0, i as int).map_values(
                    |v: StandardVersion| spec_standard_version(standard.id, v, block_num),
                ),
            decreases versions@.len() - i,
        {
            let v = &versions[i];
            db_versions.push(
                NewStandardVersion {
                    standard_id: standard.id.clone(),
                    version: v.version.clone(),
                    link: v.link.clone(),
                    description: v.description.clone(),
                    approval_date: v.approval_date as i64,
                    start_block_num: block_num,
                    end_block_num: MAX_BLOCK_NUM,
                },
            );
            i = i + 1;
            proof {
                assert(versions@.subrange(0, i as int).drop_last() =~= versions@.subrange(0, i - 1));
            }
        }
        proof {
            assert(versions@.subrange(0, i as int) =~= versions@);
        }
        (db_standard, db_versions)
    }
}

impl Container<Organization> for OrganizationContainer {
    open spec fn spec_values(&self) -> Seq<Organization> {
        self.entries@
    }

    fn values(&self) -> (r: &[Organization]) {
        self.entries.as_slice()
    }
}

impl Container<Agent> for AgentContainer {
    open spec fn spec_values(&self) -> Seq<Agent> {
        self.entries@
    }

    fn values(&self) -> (r: &[Agent]) {
        self.entries.as_slice()
    }
}

impl Container<Certificate> for CertificateContainer {
    open spec fn spec_values(&self) -> Seq<Certificate> {
        self.entries@
    }

    fn values(&self) -> (r: &[Certificate]) {
        self.entries.as_slice()
    }
}

impl Container<Request> for RequestContainer {
    open spec fn spec_values(&self) -> Seq<Request> {
        self.entries@
    }

    fn values(&self) -> (r: &[Request]) {
        self.entries.as_slice()
    }
}

impl Container<Standard> for StandardContainer {
    open spec fn spec_values(&self) -> Seq<Standard> {
        self.entries@
    }

    fn values(&self) -> (r: &[Standard]) {
        self.entries.as_slice()
    }
}

} // verus!
