use creg_subscriber::models::{
    NewAccreditation, NewAddress, NewAgent, NewAuthorization, NewCertificate, NewContact,
    NewOrganization, NewRequest, NewStandard, NewStandardVersion, OrganizationTypeEnum,
    RequestStatusEnum, RoleEnum, MAX_BLOCK_NUM,
};
use creg_subscriber::proto::{
    Accreditation, Agent, Authorization, AuthorizationRole, Certificate, CertifyingBody, Contact,
    Factory, FactoryAddress, Organization, OrganizationType, Request, RequestStatus, Standard,
    StandardVersion,
};
use creg_subscriber::transformer::FromStateAtBlock;

const PUBLIC_KEY: &str = "test_public_key";
const ORG_ID: &str = "test_org";
const CERT_ORG_ID: &str = "test_cert_org";
const FACTORY_ID: &str = "test_factory";
const STANDARDS_BODY_ID: &str = "test_standards_body";
const CERT_ID: &str = "test_cert";
const REQUEST_ID: &str = "test_request";
const STANDARD_ID: &str = "test_standard";

fn test_contact() -> Contact {
    Contact {
        name: "test".to_string(),
        phone_number: "test".to_string(),
        language_code: "test".to_string(),
    }
}

fn make_agent() -> Agent {
    Agent {
        public_key: PUBLIC_KEY.to_string(),
        organization_id: ORG_ID.to_string(),
        name: "test".to_string(),
        timestamp: 1,
    }
}

fn make_certifying_body() -> Organization {
    Organization {
        id: CERT_ORG_ID.to_string(),
        name: "test".to_string(),
        organization_type: OrganizationType::CertifyingBody,
        contacts: vec![test_contact()],
        certifying_body_details: CertifyingBody {
            accreditations: vec![Accreditation {
                standard_id: STANDARD_ID.to_string(),
                standard_version: "test".to_string(),
                accreditor_id: "test".to_string(),
                valid_from: 1,
                valid_to: 2,
            }],
        },
        authorizations: vec![Authorization {
            public_key: PUBLIC_KEY.to_string(),
            role: AuthorizationRole::Admin,
        }],
        ..Default::default()
    }
}

fn make_factory() -> Organization {
    Organization {
        id: FACTORY_ID.to_string(),
        name: "test".to_string(),
        organization_type: OrganizationType::Factory,
        contacts: vec![test_contact()],
        factory_details: Factory {
            address: Some(FactoryAddress {
                street_line_1: "test".to_string(),
                street_line_2: String::new(),
                city: "test".to_string(),
                state_province: "test".to_string(),
                country: "test".to_string(),
                postal_code: "test".to_string(),
            }),
        },
        ..Default::default()
    }
}

fn make_certificate() -> Certificate {
    Certificate {
        id: CERT_ID.to_string(),
        certifying_body_id: CERT_ORG_ID.to_string(),
        factory_id: FACTORY_ID.to_string(),
        standard_id: STANDARD_ID.to_string(),
        standard_version: "test".to_string(),
        valid_from: 1,
        valid_to: 2,
    }
}

fn make_request() -> Request {
    Request {
        id: REQUEST_ID.to_string(),
        status: RequestStatus::Open,
        standard_id: STANDARD_ID.to_string(),
        factory_id: FACTORY_ID.to_string(),
        request_date: 1,
    }
}

fn make_standard() -> Standard {
    Standard {
        id: STANDARD_ID.to_string(),
        name: "test".to_string(),
        organization_id: STANDARDS_BODY_ID.to_string(),
        versions: vec![StandardVersion {
            version: "test".to_string(),
            description: "test".to_string(),
            link: "test".to_string(),
            approval_date: 1,
        }],
    }
}

#[test]
fn test_cert_body_at_block() {
    let new_org = NewOrganization {
        organization_id: CERT_ORG_ID.to_string(),
        name: "test".to_string(),
        organization_type: OrganizationTypeEnum::CertifyingBody,
        start_block_num: 1,
        end_block_num: MAX_BLOCK_NUM,
    };
    let new_accreditation = NewAccreditation {
        organization_id: CERT_ORG_ID.to_string(),
        standard_id: STANDARD_ID.to_string(),
        standard_version: "test".to_string(),
        accreditor_id: "test".to_string(),
        valid_from: 1,
        valid_to: 2,
        start_block_num: 1,
        end_block_num: MAX_BLOCK_NUM,
    };
    let new_auth = NewAuthorization {
        organization_id: CERT_ORG_ID.to_string(),
        public_key: PUBLIC_KEY.to_string(),
        role: RoleEnum::Admin,
        start_block_num: 1,
        end_block_num: MAX_BLOCK_NUM,
    };
    let new_contact = NewContact {
        organization_id: CERT_ORG_ID.to_string(),
        name: "test".to_string(),
        phone_number: "test".to_string(),
        language_code: "test".to_string(),
        start_block_num: 1,
        end_block_num: MAX_BLOCK_NUM,
    };
    let (state_org, state_accreditation, state_address, state_auth, state_contact) =
        FromStateAtBlock::at_block(1, &make_certifying_body());
    assert_eq!(state_org, new_org);
    assert_eq!(state_accreditation, Some(vec![new_accreditation]));
    assert_eq!(state_address, None);
    assert_eq!(state_auth, vec![new_auth]);
    assert_eq!(state_contact, vec![new_contact]);
}

#[test]
fn test_factory_at_block() {
    let new_org = NewOrganization {
        organization_id: FACTORY_ID.to_string(),
        name: "test".to_string(),
        organization_type: OrganizationTypeEnum::Factory,
        start_block_num: 1,
        end_block_num: MAX_BLOCK_NUM,
    };
    let new_contact = NewContact {
        organization_id: FACTORY_ID.to_string(),
        name: "test".to_string(),
        phone_number: "test".to_string(),
        language_code: "test".to_string(),
        start_block_num: 1,
        end_block_num: MAX_BLOCK_NUM,
    };
    let new_address = NewAddress {
        organization_id: FACTORY_ID.to_string(),
        street_line_1: "test".to_string(),
        street_line_2: None,
        city: "test".to_string(),
        state_province: Some("test".to_string()),
        country: "test".to_string(),
        postal_code: Some("test".to_string()),
        start_block_num: 1,
        end_block_num: MAX_BLOCK_NUM,
    };
    let (state_org, state_accreditation, state_address, state_auth, state_contact) =
        FromStateAtBlock::at_block(1, &make_factory());
    assert_eq!(state_org, new_org);
    assert_eq!(state_accreditation, None);
    assert_eq!(state_address, Some(new_address));
    assert_eq!(state_auth, vec![]);
    assert_eq!(state_contact, vec![new_contact]);
}

#[test]
fn test_agent_at_block() {
    let new_agent = NewAgent {
        public_key: PUBLIC_KEY.to_string(),
        organization_id: Some(ORG_ID.to_string()),
        name: "test".to_string(),
        timestamp: 1,
        start_block_num: 1,
        end_block_num: MAX_BLOCK_NUM,
    };
    let from_state: NewAgent = FromStateAtBlock::at_block(1, &make_agent());
    assert_eq!(from_state, new_agent);
}

#[test]
fn test_certificate_at_block() {
    let new_cert = NewCertificate {
        certificate_id: CERT_ID.to_string(),
        certifying_body_id: CERT_ORG_ID.to_string(),
        factory_id: FACTORY_ID.to_string(),
        standard_id: STANDARD_ID.to_string(),
        standard_version: "test".to_string(),
        valid_from: 1,
        valid_to: 2,
        start_block_num: 1,
        end_block_num: MAX_BLOCK_NUM,
    };
    let from_state: NewCertificate = FromStateAtBlock::at_block(1, &make_certificate());
    assert_eq!(from_state, new_cert);
}

#[test]
fn test_request_at_block() {
    let new_request = NewRequest {
        request_id: REQUEST_ID.to_string(),
        factory_id: FACTORY_ID.to_string(),
        standard_id: STANDARD_ID.to_string(),
        status: RequestStatusEnum::Open,
        request_date: 1,
        start_block_num: 1,
        end_block_num: MAX_BLOCK_NUM,
    };
    let from_state: NewRequest = FromStateAtBlock::at_block(1, &make_request());
    assert_eq!(from_state, new_request);
}

#[test]
fn test_standard_at_block() {
    let new_standard = NewStandard {
        standard_id: STANDARD_ID.to_string(),
        organization_id: STANDARDS_BODY_ID.to_string(),
        name: "test".to_string(),
        start_block_num: 1,
        end_block_num: MAX_BLOCK_NUM,
    };
    let new_standard_version = NewStandardVersion {
        standard_id: STANDARD_ID.to_string(),
        version: "test".to_string(),
        link: "test".to_string(),
        description: "test".to_string(),
        approval_date: 1,
        start_block_num: 1,
        end_block_num: MAX_BLOCK_NUM,
    };
    let from_state: (NewStandard, Vec<NewStandardVersion>) =
        FromStateAtBlock::at_block(1, &make_standard());
    assert_eq!(from_state, (new_standard, vec![new_standard_version]));
}

#[test]
fn factory_without_address_has_no_address_record() {
    let mut org = make_factory();
    org.factory_details.address = None;
    let records: (
        NewOrganization,
        Option<Vec<NewAccreditation>>,
        Option<NewAddress>,
        Vec<NewAuthorization>,
        Vec<NewContact>,
    ) = FromStateAtBlock::at_block(3, &org);
    assert_eq!(records.1, None);
    assert_eq!(records.2, None);
    assert!(records.3.is_empty());
    assert_eq!(records.4.len(), 1);
}

#[test]
fn certifying_body_with_no_accreditations_has_empty_set() {
    let mut org = make_certifying_body();
    org.certifying_body_details.accreditations = vec![];
    org.factory_details = Factory {
        address: make_factory().factory_details.address,
    };
    let records: (
        NewOrganization,
        Option<Vec<NewAccreditation>>,
        Option<NewAddress>,
        Vec<NewAuthorization>,
        Vec<NewContact>,
    ) = FromStateAtBlock::at_block(7, &org);
    assert_eq!(records.1, Some(vec![]));
    assert_eq!(records.2, None);
    assert_eq!(records.0.start_block_num, 7);
}

#[test]
fn standards_body_has_neither_accreditations_nor_address() {
    let mut org = make_certifying_body();
    org.organization_type = OrganizationType::StandardsBody;
    let records: (
        NewOrganization,
        Option<Vec<NewAccreditation>>,
        Option<NewAddress>,
        Vec<NewAuthorization>,
        Vec<NewContact>,
    ) = FromStateAtBlock::at_block(2, &org);
    assert_eq!(records.0.organization_type, OrganizationTypeEnum::StandardsBody);
    assert_eq!(records.1, None);
    assert_eq!(records.2, None);
    assert_eq!(records.3.len(), 1);
    assert_eq!(records.4.len(), 1);
}

#[test]
fn roles_and_statuses_map_one_to_one() {
    let mut org = make_certifying_body();
    org.authorizations = vec![
        Authorization { public_key: "a".to_string(), role: AuthorizationRole::Transactor },
        Authorization { public_key: "b".to_string(), role: AuthorizationRole::UnsetRole },
    ];
    let records: (
        NewOrganization,
        Option<Vec<NewAccreditation>>,
        Option<NewAddress>,
        Vec<NewAuthorization>,
        Vec<NewContact>,
    ) = FromStateAtBlock::at_block(1, &org);
    assert_eq!(records.3[0].role, RoleEnum::Transactor);
    assert_eq!(records.3[1].role, RoleEnum::UnsetRole);
    assert_eq!(records.3[1].public_key, "b");

    let statuses = [
        (RequestStatus::InProgress, RequestStatusEnum::InProgress),
        (RequestStatus::Closed, RequestStatusEnum::Closed),
        (RequestStatus::Certified, RequestStatusEnum::Certified),
        (RequestStatus::UnsetStatus, RequestStatusEnum::UnsetStatus),
    ];
    for (status, expected) in statuses {
        let mut request = make_request();
        request.status = status;
        let record: NewRequest = FromStateAtBlock::at_block(1, &request);
        assert_eq!(record.status, expected);
    }
}

#[test]
fn large_timestamps_are_cast_to_i64() {
    let mut agent = make_agent();
    agent.timestamp = u64::MAX;
    agent.organization_id = String::new();
    let record: NewAgent = FromStateAtBlock::at_block(9, &agent);
    assert_eq!(record.timestamp, -1);
    assert_eq!(record.organization_id, None);
    assert_eq!(record.start_block_num, 9);
    assert_eq!(record.end_block_num, i64::MAX);
}
