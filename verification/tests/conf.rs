use openssl_conf::conf::{
    cvt, cvt_p, marshal, modules_load_file, try_modules_load_file, Conf, ConfMethod, InvalidInput,
    Step,
};
use openssl_conf::cstr::NulError;
use openssl_conf::error::{ErrorRecord, ErrorStack};

fn record(code: u64, line: u32) -> ErrorRecord {
    ErrorRecord {
        code,
        file: String::from("crypto/conf/conf_mod.c"),
        line,
        func: Some(String::from("CONF_modules_load_file")),
        data: None,
    }
}

#[test]
fn cvt_keeps_a_positive_code() {
    assert!(matches!(cvt(1), Step::Done(1)));
    assert!(matches!(cvt(7), Step::Done(7)));
    assert!(matches!(cvt(i32::MAX), Step::Done(i32::MAX)));
}

#[test]
fn cvt_takes_zero_and_negative_codes_as_failure() {
    assert!(matches!(cvt(0), Step::TakeErrors));
    assert!(matches!(cvt(-1), Step::TakeErrors));
    assert!(matches!(cvt(i32::MIN), Step::TakeErrors));
}

#[test]
fn cvt_p_takes_null_as_failure() {
    assert!(matches!(cvt_p(0), Step::TakeErrors));
    assert!(matches!(cvt_p(0x7f00_1000), Step::Done(0x7f00_1000)));
    assert!(matches!(cvt_p(usize::MAX), Step::Done(usize::MAX)));
}

#[test]
fn step_asks_for_errors_only_after_failure() {
    assert!(!cvt(1).needs_errors());
    assert!(cvt(0).needs_errors());
}

#[test]
fn finish_returns_the_value_of_a_step_that_is_done() {
    let res = cvt(3).finish(ErrorStack::from_records(vec![record(1, 2)]));
    assert_eq!(res.unwrap(), 3);
}

#[test]
fn finish_returns_the_records_of_a_failed_step() {
    let res = cvt(-1).finish(ErrorStack::from_records(vec![record(10, 1), record(20, 2)]));
    let stack = res.unwrap_err();
    assert_eq!(stack.len(), 2);
    assert_eq!(stack.errors()[0].code, 10);
    assert_eq!(stack.errors()[1].code, 20);
    assert_eq!(stack.errors()[1].line, 2);
}

#[test]
fn method_keeps_its_address() {
    let method = ConfMethod::from_ptr(0x5555_0010);
    assert_eq!(method.as_ptr(), 0x5555_0010);
}

#[test]
fn conf_from_a_valid_address_is_a_non_null_handle() {
    let method = ConfMethod::from_ptr(0x5555_0010);
    assert_ne!(method.as_ptr(), 0);
    match Conf::new(0x5555_2000) {
        Step::Done(conf) => {
            assert_eq!(conf.as_ptr(), 0x5555_2000);
            assert_ne!(conf.as_ptr(), 0);
        }
        Step::TakeErrors => panic!("a non-null address must give a handle"),
    }
}

#[test]
fn conf_from_null_is_a_failed_construction() {
    let step = Conf::new(0);
    assert!(step.needs_errors());
    let res = step.finish(ErrorStack::from_records(vec![record(0x0700_0041, 90)]));
    let stack = res.unwrap_err();
    assert!(!stack.is_empty());
    assert_eq!(stack.errors()[0].code, 0x0700_0041);
}

#[test]
fn conf_gives_its_address_up_once_per_handle() {
    let mut released: Vec<usize> = Vec::new();
    let mut addr: usize = 0x1000;
    while addr < 0x1100 {
        match Conf::new(addr) {
            Step::Done(conf) => released.push(conf.into_ptr()),
            Step::TakeErrors => panic!("a non-null address must give a handle"),
        }
        addr += 0x10;
    }
    assert_eq!(released.len(), 16);
    assert_eq!(released[0], 0x1000);
    assert_eq!(released[15], 0x10f0);
}

#[test]
fn marshal_leaves_an_absent_string_absent() {
    assert!(marshal(None).unwrap().is_none());
}

#[test]
fn marshal_terminates_a_present_string() {
    let buf = marshal(Some("openssl_conf")).unwrap().unwrap();
    assert_eq!(buf.as_bytes_with_nul(), b"openssl_conf\0");
}

#[test]
fn marshal_refuses_a_zero_byte() {
    assert_eq!(marshal(Some("a\0")).unwrap_err(), NulError { position: 1 });
}

#[test]
fn load_with_both_arguments_absent_passes_two_nulls() {
    let req = modules_load_file(None, None, 0);
    assert!(req.filename.is_none());
    assert!(req.appname.is_none());
    assert_eq!(req.flags, 0);
    assert!(matches!(req.complete(1), Step::Done(1)));
    assert!(matches!(modules_load_file(None, None, 0).complete(0), Step::TakeErrors));
}

#[test]
fn load_passes_both_strings_and_the_flags_unchanged() {
    let req = modules_load_file(Some("/etc/ssl/openssl.cnf"), Some(String::from("myapp")), 0x30);
    assert_eq!(req.filename.unwrap().as_bytes_with_nul(), b"/etc/ssl/openssl.cnf\0");
    assert_eq!(req.appname.unwrap().as_bytes_with_nul(), b"myapp\0");
    assert_eq!(req.flags, 0x30);
}

#[test]
fn load_passes_every_flag_bit() {
    assert_eq!(modules_load_file(None, None, u32::MAX).flags, 0xffff_ffff);
    assert_eq!(modules_load_file(None, None, 0x8000_0001).flags, 0x8000_0001);
}

#[test]
fn load_of_a_missing_file_fails_with_the_queued_records() {
    let req = modules_load_file(Some("/nonexistent/dir/missing.cnf"), None, 0);
    assert_eq!(req.filename.as_ref().unwrap().as_bytes_with_nul(), b"/nonexistent/dir/missing.cnf\0");
    let step = req.complete(0);
    assert!(step.needs_errors());
    let res = step.finish(ErrorStack::from_records(vec![record(0x8000_0002, 185)]));
    let stack = res.unwrap_err();
    assert!(!stack.is_empty());
    assert_eq!(stack.errors()[0].line, 185);
}

#[test]
fn load_refuses_a_path_with_a_zero_byte() {
    let res = try_modules_load_file(Some("/etc/ssl\0/openssl.cnf"), None, 0);
    assert_eq!(res.unwrap_err(), InvalidInput::Filename(NulError { position: 8 }));
}

#[test]
fn load_refuses_an_application_name_with_a_zero_byte() {
    let res = try_modules_load_file(Some("/etc/ssl/openssl.cnf"), Some(String::from("\0app")), 0);
    assert_eq!(res.unwrap_err(), InvalidInput::Appname(NulError { position: 0 }));
}

#[test]
fn load_reports_the_file_name_first_where_both_are_refused() {
    let res = try_modules_load_file(Some("ab\0"), Some(String::from("c\0")), 4);
    assert_eq!(res.unwrap_err(), InvalidInput::Filename(NulError { position: 2 }));
}

#[test]
fn load_checked_accepts_what_can_be_passed() {
    let req = try_modules_load_file(Some("a.cnf"), Some(String::from("sect")), 1).unwrap();
    assert_eq!(req.filename.unwrap().as_bytes(), b"a.cnf");
    assert_eq!(req.appname.unwrap().as_bytes(), b"sect");
    assert_eq!(req.flags, 1);
}

#[test]
fn two_loads_in_sequence_do_not_affect_each_other() {
    let first = modules_load_file(Some("/tmp/first.cnf"), None, 0);
    assert_eq!(first.filename.as_ref().unwrap().as_bytes_with_nul(), b"/tmp/first.cnf\0");
    assert!(first.appname.is_none());
    let first_res = first.complete(1).finish(ErrorStack::new());
    let second = modules_load_file(Some("/tmp/second.cnf"), Some(String::from("other")), 0);
    assert_eq!(second.filename.as_ref().unwrap().as_bytes_with_nul(), b"/tmp/second.cnf\0");
    assert_eq!(second.appname.as_ref().unwrap().as_bytes_with_nul(), b"other\0");
    let second_res = second.complete(2).finish(ErrorStack::new());
    assert_eq!(first_res.unwrap(), 1);
    assert_eq!(second_res.unwrap(), 2);
}

#[test]
fn a_failed_load_does_not_spoil_the_next() {
    let failed = modules_load_file(Some("/tmp/broken.cnf"), None, 0).complete(-1);
    assert!(failed.needs_errors());
    let next = modules_load_file(Some("/tmp/good.cnf"), None, 0).complete(1);
    assert!(!next.needs_errors());
    assert_eq!(next.finish(ErrorStack::new()).unwrap(), 1);
}

#[test]
fn error_stack_starts_empty_and_keeps_the_order_of_records() {
    let empty = ErrorStack::new();
    assert!(empty.is_empty());
    assert_eq!(empty.len(), 0);
    let stack = ErrorStack::from_records(vec![record(3, 30), record(1, 10), record(2, 20)]);
    assert_eq!(stack.len(), 3);
    assert!(!stack.is_empty());
    let codes: Vec<u64> = stack.errors().iter().map(|r| r.code).collect();
    assert_eq!(codes, vec![3, 1, 2]);
    assert_eq!(stack.errors()[0].file, "crypto/conf/conf_mod.c");
}
