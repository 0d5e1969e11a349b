use kafka_consumer::error::{
    RESP_ERR_ASSIGN_PARTITIONS, RESP_ERR_NO_ERROR, RESP_ERR_PARTITION_EOF,
    RESP_ERR_REVOKE_PARTITIONS,
};
use kafka_consumer::topic_partition_list::OFFSET_INVALID;
use rdkafka_sys::bindings::{rd_kafka_resp_err_t, RD_KAFKA_OFFSET_INVALID};

#[test]
fn response_codes_are_the_drivers() {
    assert_eq!(RESP_ERR_NO_ERROR, rd_kafka_resp_err_t::RD_KAFKA_RESP_ERR_NO_ERROR as i32);
    assert_eq!(
        RESP_ERR_PARTITION_EOF,
        rd_kafka_resp_err_t::RD_KAFKA_RESP_ERR__PARTITION_EOF as i32
    );
}

#[test]
fn invalid_offset_is_the_drivers() {
    assert_eq!(i64::from(RD_KAFKA_OFFSET_INVALID), OFFSET_INVALID);
}

#[test]
fn rebalance_codes_are_the_drivers() {
    assert_eq!(
        RESP_ERR_ASSIGN_PARTITIONS,
        rd_kafka_resp_err_t::RD_KAFKA_RESP_ERR__ASSIGN_PARTITIONS as i32
    );
    assert_eq!(
        RESP_ERR_REVOKE_PARTITIONS,
        rd_kafka_resp_err_t::RD_KAFKA_RESP_ERR__REVOKE_PARTITIONS as i32
    );
}
