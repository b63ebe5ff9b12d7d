use watt::benchmarking::{mean_step, BenchmarkOptions};
use watt::errors::errors::Error;
use watt::lexer::address::Address;
use watt::parser::import::Import;
use watt::testing::{verdict, TestVerdict, TesterResults};
use watt::vm::ffi::FFIType;
use watt::vm::threads::Threads;
use watt::vm::values::Symbol;
use watt::vm::vm::VmSettings;

#[test]
fn builds_errors() {
    let addr = Address::new(3, 4, "f.wt".to_string());
    let e = Error::new(addr.clone(), "text", "hint");
    assert_eq!((e.addr.clone(), e.text.as_str(), e.hint.as_str()), (addr.clone(), "text", "hint"));
    let e = Error::own(addr.clone(), "a".to_string(), "b".to_string());
    assert_eq!((e.text.as_str(), e.hint.as_str()), ("a", "b"));
    let e = Error::own_text(addr.clone(), "c".to_string(), "d");
    assert_eq!((e.text.as_str(), e.hint.as_str()), ("c", "d"));
    let e = Error::own_hint(addr, "e", "f".to_string());
    assert_eq!((e.text.as_str(), e.hint.as_str()), ("e", "f"));
}

#[test]
fn builds_addresses() {
    let a = Address::new(1, 2, "x.wt".to_string());
    assert_eq!((a.line, a.column, a.file), (1, 2, Some("x.wt".to_string())));
    let u = Address::unknown();
    assert_eq!((u.line, u.column, u.file), (0, 0, None));
}

#[test]
fn builds_imports() {
    let i = Import::new(None, "std.io".to_string(), Some("io".to_string()));
    assert_eq!(i.file, "std.io");
    assert_eq!(i.full_name, Some("io".to_string()));
    assert_eq!(i.addr, None);
}

#[test]
fn builds_symbols() {
    assert_eq!(Symbol::new("a".to_string(), "m:a".to_string()).full_name, Some("m:a".to_string()));
    assert_eq!(Symbol::new_option("b".to_string(), None).name, "b");
    assert_eq!(Symbol::by_name("c".to_string()), Symbol { name: "c".to_string(), full_name: None });
}

#[test]
fn starts_with_no_threads() {
    assert_eq!(Threads::new().threads_amount, 0);
    let _settings = VmSettings::new(200, 2, false);
}

#[test]
fn names_foreign_types() {
    assert_eq!(FFIType::from("i32"), FFIType::I32);
    assert_eq!(FFIType::from("ptr"), FFIType::Pointer);
    assert_eq!(FFIType::from("usize"), FFIType::Usize);
    assert_eq!(FFIType::from("void"), FFIType::Void);
}

#[test]
fn benchmark_options_default_to_two_hundred_runs() {
    assert_eq!(BenchmarkOptions::default().get_sample_count(), 200);
    assert_eq!(BenchmarkOptions::default().sample_count(5).get_sample_count(), 5);
}

#[test]
fn running_mean_is_the_midpoint() {
    assert_eq!(mean_step(3, 4), 3);
    assert_eq!(mean_step(10, 20), 15);
    assert_eq!(mean_step(u128::MAX, u128::MAX), u128::MAX);
    assert_eq!(mean_step(0, 1), 0);
}

#[test]
fn tester_results_start_at_zero() {
    let r = TesterResults::default();
    assert_eq!((r.ran, r.ok, r.fail), (0, 0, 0));
}


#[test]
fn judges_test_runs() {
    let out = b"hi\n".to_vec();
    assert_eq!(verdict(false, Some(&out), &out), TestVerdict::Failed);
    assert_eq!(verdict(true, None, &out), TestVerdict::NoOutput);
    assert_eq!(verdict(true, Some(&out), &out), TestVerdict::Matched);
    assert_eq!(verdict(true, Some(&b"ho\n".to_vec()), &out), TestVerdict::Differed);
}

#[test]
fn counts_each_run_once() {
    let mut r = TesterResults::default();
    r.record(TestVerdict::Matched);
    r.record(TestVerdict::Differed);
    r.record(TestVerdict::NotStarted);
    r.record(TestVerdict::NoOutput);
    assert_eq!((r.ran, r.ok, r.fail), (4, 2, 2));
}
