//! The phase timing model.

use httpstat::Timing;

#[test]
fn intervals_derive_by_successive_subtraction() {
    let t = Timing::new(1, 2, 3, 5, 8);
    assert_eq!(t.namelookup, 1);
    assert_eq!(t.connect, 2);
    assert_eq!(t.pretransfer, 3);
    assert_eq!(t.starttransfer, 5);
    assert_eq!(t.total, 8);
    assert_eq!(t.dns_resolution, 1);
    assert_eq!(t.tcp_connection, 1);
    assert_eq!(t.tls_connection, 1);
    assert_eq!(t.server_processing, 2);
    assert_eq!(t.content_transfer, 3);
}

#[test]
fn intervals_sum_to_total() {
    let t = Timing::new(7, 19, 20, 111, 300);
    let sum = t.dns_resolution + t.tcp_connection + t.tls_connection + t.server_processing
        + t.content_transfer;
    assert_eq!(sum, t.total);
}

#[test]
fn equal_readings_give_zero_intervals() {
    let t = Timing::new(5, 5, 5, 5, 5);
    assert_eq!(t.tcp_connection, 0);
    assert_eq!(t.tls_connection, 0);
    assert_eq!(t.server_processing, 0);
    assert_eq!(t.content_transfer, 0);
    assert_eq!(t.dns_resolution, 5);
}
