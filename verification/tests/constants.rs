use libevent_tokio::base::EVENT_LOG_MSG;
use libevent_tokio::base::IPPORT_RESERVED;

#[test]
fn constant_access() {
    assert_eq!(EVENT_LOG_MSG, 1);
    assert_eq!(IPPORT_RESERVED, 1024);
}
