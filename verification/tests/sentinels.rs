//! Sentinel conversion is field-blind: every convention yields its
//! reserved failure value whatever error produced it.

use libssl_error::error::Error;
use libssl_error::sentinel::{
    sentinel_c_int, sentinel_c_long, sentinel_u16, sentinel_u32, sentinel_u64, sentinel_unit,
};

fn sample_errors() -> Vec<Error> {
    vec![
        Error::unexpected_panic(),
        Error::null_pointer(),
        Error::cannot_lock(),
        Error::not_supported("renegotiation"),
        Error::bad_data("certificate chain empty"),
        Error::from_rustls(rustls::Error::HandshakeNotComplete),
        Error::from_io(std::io::Error::new(
            std::io::ErrorKind::BrokenPipe,
            "peer went away",
        )),
    ]
}

#[test]
fn signed_conventions_yield_zero_for_every_error() {
    for err in sample_errors() {
        assert_eq!(sentinel_c_int(err), 0);
    }
    for err in sample_errors() {
        assert_eq!(sentinel_c_long(err), 0);
    }
}

#[test]
fn unsigned_conventions_yield_zero_for_every_error() {
    for err in sample_errors() {
        assert_eq!(sentinel_u64(err), 0);
    }
    for err in sample_errors() {
        assert_eq!(sentinel_u32(err), 0);
    }
    for err in sample_errors() {
        assert_eq!(sentinel_u16(err), 0);
    }
}

#[test]
fn void_convention_yields_no_output() {
    for err in sample_errors() {
        sentinel_unit(err);
    }
}
