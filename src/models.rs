//! Block-versioned records handed to storage, and the operations that carry them.
use vstd::prelude::*;

verus! {

/// The `end_block_num` of a record that no later version has superseded yet.
pub const MAX_BLOCK_NUM: i64 = 9223372036854775807;

/// The ledger block whose commit produced a batch of state changes.
#[derive(Debug, Clone, PartialEq, Eq)]
pub struct Block {
    pub block_num: i64,
    pub block_id: String,
}

#[derive(Debug, Clone, Copy, PartialEq, Eq)]
pub enum OrganizationTypeEnum {
    CertifyingBody,
    StandardsBody,
    Factory,
    UnsetType,
}

#[derive(Debug, Clone, Copy, PartialEq, Eq)]
pub enum RoleEnum {
    Admin,
    Transactor,
    UnsetRole,
}

#[derive(Debug, Clone, Copy, PartialEq, Eq)]
pub enum RequestStatusEnum {
    Open,
    InProgress,
    Closed,
    Certified,
    UnsetStatus,
}

#[derive(Debug, Clone, PartialEq, Eq)]
pub struct NewOrganization {
    pub organization_id: String,
    pub name: String,
    pub organization_type: OrganizationTypeEnum,
    pub start_block_num: i64,
    pub end_block_num: i64,
}

#[derive(Debug, Clone, PartialEq, Eq)]
pub struct NewAccreditation {
    pub organization_id: String,
    pub standard_id: String,
    pub standard_version: String,
    pub accreditor_id: String,
    pub valid_from: i64,
    pub valid_to: i64,
    pub start_block_num: i64,
    pub end_block_num: i64,
}

#[derive(Debug, Clone, PartialEq, Eq)]
pub struct NewAddress {
    pub organization_id: String,
    pub street_line_1: String,
    pub street_line_2: Option<String>,
    pub city: String,
    pub state_province: Option<String>,
    pub country: String,
    pub postal_code: Option<String>,
    pub start_block_num: i64,
    pub end_block_num: i64,
}

#[derive(Debug, Clone, PartialEq, Eq)]
pub struct NewAuthorization {
    pub organization_id: String,
    pub public_key: String,
    pub role: RoleEnum,
    pub start_block_num: i64,
    pub end_block_num: i64,
}

#[derive(Debug, Clone, PartialEq, Eq)]
pub struct NewContact {
    pub organization_id: String,
    pub name: String,
    pub phone_number: String,
    pub language_code: String,
    pub start_block_num: i64,
    pub end_block_num: i64,
}

#[derive(Debug, Clone, PartialEq, Eq)]
pub struct NewAgent {
    pub public_key: String,
    pub organization_id: Option<String>,
    pub name: String,
    pub timestamp: i64,
    pub start_block_num: i64,
    pub end_block_num: i64,
}

#[derive(Debug, Clone, PartialEq, Eq)]
pub struct NewCertificate {
    pub certificate_id: String,
    pub certifying_body_id: String,
    pub factory_id: String,
    pub standard_id: String,
    pub standard_version: String,
    pub valid_from: i64,
    pub valid_to: i64,
    pub start_block_num: i64,
    pub end_block_num: i64,
}

#[derive(Debug, Clone, PartialEq, Eq)]
pub struct NewRequest {
    pub request_id: String,
    pub factory_id: String,
    pub standard_id: String,
    pub status: RequestStatusEnum,
    pub request_date: i64,
    pub start_block_num: i64,
    pub end_block_num: i64,
}

#[derive(Debug, Clone, PartialEq, Eq)]
pub struct NewStandard {
    pub standard_id: String,
    pub organization_id: String,
    pub name: String,
    pub start_block_num: i64,
    pub end_block_num: i64,
}

#[derive(Debug, Clone, PartialEq, Eq)]
pub struct NewStandardVersion {
    pub standard_id: String,
    pub version: String,
    pub link: String,
    pub description: String,
    pub approval_date: i64,
    pub start_block_num: i64,
    pub end_block_num: i64,
}

/// Everything stored for one organization at one block.
pub type OrganizationRecords = (
    NewOrganization,
    Option<Vec<NewAccreditation>>,
    Option<NewAddress>,
    Vec<NewAuthorization>,
    Vec<NewContact>,
);

/// Everything stored for one standard at one block.
pub type StandardRecords = (NewStandard, Vec<NewStandardVersion>);

/// One write handed to storage for one state change.
#[derive(Debug, Clone, PartialEq, Eq)]
pub enum OperationType {
    CreateOrganization(Vec<OrganizationRecords>),
    CreateAgent(Vec<NewAgent>),
    CreateCertificate(Vec<NewCertificate>),
    CreateRequest(Vec<NewRequest>),
    CreateStandard(Vec<StandardRecords>),
}

} // verus!
