use cctrusted_ccnp::client::CcnpServiceClient;
use cctrusted_ccnp::errors::{ClientError, ExchangeFault, IdentityFailure, Operation};
use cctrusted_ccnp::tee::TeeType;

const DOCKER_LINE: &str = "2958 2938 253:1 /var/lib/docker/containers/cafe1234/hostname /etc/hostname rw,relatime - ext4 /dev/vda1 rw";

fn client() -> CcnpServiceClient {
    CcnpServiceClient { ccnp_uds_path: String::from("/run/ccnp/uds/ccnp-server.sock") }
}

#[test]
fn tee_type_table_is_exact() {
    let c = client();
    assert_eq!(c.get_tee_type_by_value(&-1), TeeType::Plain);
    assert_eq!(c.get_tee_type_by_value(&0), TeeType::Tpm);
    assert_eq!(c.get_tee_type_by_value(&1), TeeType::Tdx);
    assert_eq!(c.get_tee_type_by_value(&2), TeeType::Sev);
    assert_eq!(c.get_tee_type_by_value(&3), TeeType::Cca);
}

#[test]
fn unknown_tee_codes_fall_back_to_plain() {
    let c = client();
    assert_eq!(c.get_tee_type_by_value(&4), TeeType::Plain);
    assert_eq!(c.get_tee_type_by_value(&-2), TeeType::Plain);
    assert_eq!(c.get_tee_type_by_value(&42), TeeType::Plain);
    assert_eq!(c.get_tee_type_by_value(&i32::MIN), TeeType::Plain);
    assert_eq!(c.get_tee_type_by_value(&i32::MAX), TeeType::Plain);
}

#[test]
fn get_container_id_on_unreadable_resource() {
    let c = client();
    assert_eq!(c.get_container_id(None), Err(IdentityFailure::Unreadable));
}

#[test]
fn get_container_id_from_text() {
    let c = client();
    assert_eq!(c.get_container_id(Some(DOCKER_LINE)), Ok(String::from("cafe1234")));
}

#[test]
fn report_request_carries_identity_and_inputs() {
    let c = client();
    let req = c
        .prepare_cc_report_request(
            Some(DOCKER_LINE),
            Some(String::from("nonce-bytes")),
            Some(String::from("user-bytes")),
        )
        .unwrap();
    assert_eq!(req.container_id, String::from("cafe1234"));
    assert_eq!(req.nonce, Some(String::from("nonce-bytes")));
    assert_eq!(req.user_data, Some(String::from("user-bytes")));
}

#[test]
fn report_on_empty_mount_text_surfaces_identity_error() {
    let c = client();
    let r = c.prepare_cc_report_request(Some(""), None, None);
    assert_eq!(
        r.unwrap_err(),
        ClientError::Identity(Operation::GetCcReport, IdentityFailure::NotFound)
    );
}

#[test]
fn report_on_unreadable_mounts_surfaces_identity_error() {
    let c = client();
    let r = c.prepare_cc_report_request(None, None, None);
    assert_eq!(
        r.unwrap_err(),
        ClientError::Identity(Operation::GetCcReport, IdentityFailure::Unreadable)
    );
}

#[test]
fn measurement_request_widens_index_and_algorithm() {
    let c = client();
    let req = c.prepare_cc_measurement_request(Some(DOCKER_LINE), 7, 12).unwrap();
    assert_eq!(req.container_id, String::from("cafe1234"));
    assert_eq!(req.index, 7u32);
    assert_eq!(req.algo_id, 12u32);
}

#[test]
fn measurement_on_failed_identity_names_its_operation() {
    let c = client();
    let r = c.prepare_cc_measurement_request(Some("no markers here"), 0, 4);
    assert_eq!(
        r.unwrap_err(),
        ClientError::Identity(Operation::GetCcMeasurement, IdentityFailure::NotFound)
    );
}

#[test]
fn eventlog_request_passes_the_slice_through() {
    let c = client();
    let req = c.prepare_cc_eventlog_request(Some(DOCKER_LINE), Some(0), Some(10)).unwrap();
    assert_eq!(req.container_id, String::from("cafe1234"));
    assert_eq!(req.start, Some(0u32));
    assert_eq!(req.count, Some(10u32));

    let open_ended = c.prepare_cc_eventlog_request(Some(DOCKER_LINE), Some(3), None).unwrap();
    assert_eq!(open_ended.start, Some(3u32));
    assert_eq!(open_ended.count, None);
}

#[test]
fn eventlog_on_failed_identity_names_its_operation() {
    let c = client();
    let r = c.prepare_cc_eventlog_request(None, None, None);
    assert_eq!(
        r.unwrap_err(),
        ClientError::Identity(Operation::GetCcEventlog, IdentityFailure::Unreadable)
    );
}

#[test]
fn node_scoped_requests_need_no_identity() {
    let c = client();
    // These two operations take no mount text at all and cannot fail.
    let _count_req = c.prepare_measurement_count_request();
    let _algo_req = c.prepare_default_algorithm_request();
}

#[test]
fn settle_exchange_passes_success_through() {
    let c = client();
    let r = c.settle_exchange(Operation::GetMeasurementCount, Ok::<u32, ExchangeFault>(5));
    assert_eq!(r, Ok(5u32));
}

#[test]
fn settle_exchange_attributes_transport_faults() {
    let c = client();
    let r = c.settle_exchange::<u32>(Operation::GetCcReport, Err(ExchangeFault::Transport));
    assert_eq!(r, Err(ClientError::Transport(Operation::GetCcReport)));
}

#[test]
fn settle_exchange_attributes_protocol_faults() {
    let c = client();
    let r = c.settle_exchange::<u32>(Operation::GetDefaultAlgorithm, Err(ExchangeFault::Protocol));
    assert_eq!(r, Err(ClientError::Protocol(Operation::GetDefaultAlgorithm)));
}

#[test]
fn messages_name_the_operation_and_the_failure() {
    assert_eq!(
        ClientError::Identity(Operation::GetCcReport, IdentityFailure::NotFound).describe(),
        "[get_cc_report_from_server] error getting the container ID: no container info in the mount records"
    );
    assert_eq!(
        ClientError::Identity(Operation::GetCcEventlog, IdentityFailure::Unreadable).describe(),
        "[get_cc_eventlog_from_server] error getting the container ID: the mount records could not be read"
    );
    assert_eq!(
        ClientError::Identity(Operation::GetCcMeasurement, IdentityFailure::Malformed).describe(),
        "[get_cc_measurement_from_server] error getting the container ID: incorrect container info in the mount records"
    );
    assert_eq!(
        ClientError::Transport(Operation::GetMeasurementCount).describe(),
        "[get_cc_measurement_count_from_server] error reaching the server over the local socket"
    );
    assert_eq!(
        ClientError::Protocol(Operation::GetDefaultAlgorithm).describe(),
        "[get_cc_default_algorithm_from_server] the server rejected the request"
    );
}
