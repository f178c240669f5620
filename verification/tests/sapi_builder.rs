//! The SAPI module descriptor builder.

use php_ext_bridge::Error;
use php_ext_bridge::sapi::HostCallback;
use php_ext_bridge::sapi::SapiBuilder;

#[test]
fn build_with_only_write_output_keeps_documented_defaults() {
    let module = SapiBuilder::new(b"ext".to_vec(), b"Ext Bridge".to_vec())
        .ub_write_function(7)
        .build()
        .unwrap();
    assert_eq!(module.ub_write, HostCallback::Handler(7));
    assert_eq!(module.sapi_error, HostCallback::DefaultErrorReporter);
    assert_eq!(module.send_header, HostCallback::NoOpSendHeader);
    assert_eq!(module.default_post_reader, HostCallback::DefaultPostReader);
    assert_eq!(module.treat_data, HostCallback::DefaultTreatData);
    assert_eq!(module.input_filter, HostCallback::DefaultInputFilter);
}

#[test]
fn build_converts_names_into_host_strings() {
    let module = SapiBuilder::new(b"ext".to_vec(), b"Ext Bridge".to_vec())
        .build()
        .unwrap();
    assert_eq!(module.name.contents(), b"ext".to_vec());
    assert_eq!(module.pretty_name.contents(), b"Ext Bridge".to_vec());
}

#[test]
fn unset_fields_finish_at_neutral_defaults() {
    let module = SapiBuilder::new(b"n".to_vec(), b"p".to_vec())
        .build()
        .unwrap();
    assert_eq!(module.startup, HostCallback::Absent);
    assert_eq!(module.shutdown, HostCallback::Absent);
    assert_eq!(module.get_stat, HostCallback::Absent);
    assert_eq!(module.header_handler, HostCallback::Absent);
    assert_eq!(module.send_headers, HostCallback::Absent);
    assert_eq!(module.get_fd, HostCallback::Absent);
    assert_eq!(module.force_http_10, HostCallback::Absent);
    assert_eq!(module.ini_defaults, HostCallback::Absent);
    assert_eq!(module.input_filter_init, HostCallback::Absent);
    assert_eq!(module.php_ini_path_override, None);
    assert_eq!(module.executable_location, None);
    assert_eq!(module.ini_entries, None);
    assert_eq!(module.php_ini_ignore, 0);
    assert_eq!(module.php_ini_ignore_cwd, 0);
    assert_eq!(module.phpinfo_as_text, 0);
}

#[test]
fn explicit_send_header_is_kept() {
    let module = SapiBuilder::new(b"n".to_vec(), b"p".to_vec())
        .send_header_function(11)
        .build()
        .unwrap();
    assert_eq!(module.send_header, HostCallback::Handler(11));
}

#[test]
fn every_setter_reaches_its_slot() {
    let module = SapiBuilder::new(b"n".to_vec(), b"p".to_vec())
        .startup_function(1)
        .shutdown_function(2)
        .activate_function(3)
        .deactivate_function(4)
        .ub_write_function(5)
        .flush_function(6)
        .getenv_function(7)
        .send_header_function(8)
        .read_post_function(9)
        .read_cookies_function(10)
        .register_server_variables_function(11)
        .log_message_function(12)
        .get_request_time_function(13)
        .terminate_process_function(14)
        .get_target_uid_function(15)
        .get_target_gid_function(16)
        .php_ini_ignore(1)
        .php_ini_ignore_cwd(1)
        .build()
        .unwrap();
    assert_eq!(module.startup, HostCallback::Handler(1));
    assert_eq!(module.shutdown, HostCallback::Handler(2));
    assert_eq!(module.activate, HostCallback::Handler(3));
    assert_eq!(module.deactivate, HostCallback::Handler(4));
    assert_eq!(module.ub_write, HostCallback::Handler(5));
    assert_eq!(module.flush, HostCallback::Handler(6));
    assert_eq!(module.getenv, HostCallback::Handler(7));
    assert_eq!(module.send_header, HostCallback::Handler(8));
    assert_eq!(module.read_post, HostCallback::Handler(9));
    assert_eq!(module.read_cookies, HostCallback::Handler(10));
    assert_eq!(module.register_server_variables, HostCallback::Handler(11));
    assert_eq!(module.log_message, HostCallback::Handler(12));
    assert_eq!(module.get_request_time, HostCallback::Handler(13));
    assert_eq!(module.terminate_process, HostCallback::Handler(14));
    assert_eq!(module.get_target_uid, HostCallback::Handler(15));
    assert_eq!(module.get_target_gid, HostCallback::Handler(16));
    assert_eq!(module.php_ini_ignore, 1);
    assert_eq!(module.php_ini_ignore_cwd, 1);
}

#[test]
fn optional_strings_are_converted() {
    let module = SapiBuilder::new(b"n".to_vec(), b"p".to_vec())
        .php_ini_path_override(b"/etc/php.ini".to_vec())
        .executable_location(b"/usr/bin/host".to_vec())
        .build()
        .unwrap();
    assert_eq!(
        module.php_ini_path_override.unwrap().contents(),
        b"/etc/php.ini".to_vec()
    );
    assert_eq!(
        module.executable_location.unwrap().contents(),
        b"/usr/bin/host".to_vec()
    );
}

#[test]
fn identical_setter_calls_yield_identical_records() {
    let build = || {
        SapiBuilder::new(b"ext".to_vec(), b"Ext Bridge".to_vec())
            .ub_write_function(5)
            .send_header_function(8)
            .php_ini_ignore(1)
            .executable_location(b"/usr/bin/host".to_vec())
            .build()
            .unwrap()
    };
    assert_eq!(build(), build());
}

#[test]
fn name_with_terminator_fails_the_build() {
    let r = SapiBuilder::new(b"e\0xt".to_vec(), b"p".to_vec()).build();
    assert_eq!(r.unwrap_err(), Error::StringConversionFailure);
}

#[test]
fn pretty_name_with_terminator_fails_the_build() {
    let r = SapiBuilder::new(b"ext".to_vec(), b"p\0retty".to_vec()).build();
    assert_eq!(r.unwrap_err(), Error::StringConversionFailure);
}

#[test]
fn path_override_with_terminator_fails_the_build() {
    let r = SapiBuilder::new(b"ext".to_vec(), b"p".to_vec())
        .php_ini_path_override(b"/etc\0/php.ini".to_vec())
        .build();
    assert_eq!(r.unwrap_err(), Error::StringConversionFailure);
}

#[test]
fn executable_location_with_terminator_fails_the_build() {
    let r = SapiBuilder::new(b"ext".to_vec(), b"p".to_vec())
        .executable_location(b"/usr\0/bin".to_vec())
        .build();
    assert_eq!(r.unwrap_err(), Error::StringConversionFailure);
}
