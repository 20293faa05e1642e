//! The decoded ledger payloads of the five entity families, and their containers.
use vstd::prelude::*;

verus! {

#[derive(Debug, Clone, Copy, PartialEq, Eq, Default)]
pub enum OrganizationType {
    #[default]
    UnsetType,
    CertifyingBody,
    StandardsBody,
    Factory,
}

#[derive(Debug, Clone, Copy, PartialEq, Eq, Default)]
pub enum AuthorizationRole {
    #[default]
    UnsetRole,
    Admin,
    Transactor,
}

#[derive(Debug, Clone, Copy, PartialEq, Eq, Default)]
pub enum RequestStatus {
    #[default]
    UnsetStatus,
    Open,
    InProgress,
    Closed,
    Certified,
}

#[derive(Debug, Clone, PartialEq, Eq, Default)]
pub struct Authorization {
    pub public_key: String,
    pub role: AuthorizationRole,
}

#[derive(Debug, Clone, PartialEq, Eq, Default)]
pub struct Contact {
    pub name: String,
    pub phone_number: String,
    pub language_code: String,
}

#[derive(Debug, Clone, PartialEq, Eq, Default)]
pub struct Accreditation {
    pub standard_id: String,
    pub standard_version: String,
    pub accreditor_id: String,
    pub valid_from: u64,
    pub valid_to: u64,
}

#[derive(Debug, Clone, PartialEq, Eq, Default)]
pub struct CertifyingBody {
    pub accreditations: Vec<Accreditation>,
}

#[derive(Debug, Clone, PartialEq, Eq, Default)]
pub struct FactoryAddress {
    pub street_line_1: String,
    pub street_line_2: String,
    pub city: String,
    pub state_province: String,
    pub country: String,
    pub postal_code: String,
}

#[derive(Debug, Clone, PartialEq, Eq, Default)]
pub struct Factory {
    pub address: Option<FactoryAddress>,
}

#[derive(Debug, Clone, PartialEq, Eq, Default)]
pub struct Organization {
    pub id: String,
    pub name: String,
    pub organization_type: OrganizationType,
    pub authorizations: Vec<Authorization>,
    pub contacts: Vec<Contact>,
    pub certifying_body_details: CertifyingBody,
    pub factory_details: Factory,
}

#[derive(Debug, Clone, PartialEq, Eq, Default)]
pub struct Agent {
    pub public_key: String,
    pub organization_id: String,
    pub name: String,
    pub timestamp: u64,
}

#[derive(Debug, Clone, PartialEq, Eq, Default)]
pub struct Certificate {
    pub id: String,
    pub certifying_body_id: String,
    pub factory_id: String,
    pub standard_id: String,
    pub standard_version: String,
    pub valid_from: u64,
    pub valid_to: u64,
}

#[derive(Debug, Clone, PartialEq, Eq, Default)]
pub struct Request {
    pub id: String,
    pub status: RequestStatus,
    pub standard_id: String,
    pub factory_id: String,
    pub request_date: u64,
}

#[derive(Debug, Clone, PartialEq, Eq, Default)]
pub struct StandardVersion {
    pub version: String,
    pub description: String,
    pub link: String,
    pub approval_date: u64,
}

#[derive(Debug, Clone, PartialEq, Eq, Default)]
pub struct Standard {
    pub id: String,
    pub organization_id: String,
    pub name: String,
    pub versions: Vec<StandardVersion>,
}

#[derive(Debug, Clone, PartialEq, Eq, Default)]
pub struct OrganizationContainer {
    pub entries: Vec<Organization>,
}

#[derive(Debug, Clone, PartialEq, Eq, Default)]
pub struct AgentContainer {
    pub entries: Vec<Agent>,
}

#[derive(Debug, Clone, PartialEq, Eq, Default)]
pub struct CertificateContainer {
    pub entries: Vec<Certificate>,
}

#[derive(Debug, Clone, PartialEq, Eq, Default)]
pub struct RequestContainer {
    pub entries: Vec<Request>,
}

#[derive(Debug, Clone, PartialEq, Eq, Default)]
pub struct StandardContainer {
    pub entries: Vec<Standard>,
}

} // verus!
