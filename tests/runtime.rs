use ya_runtime_sdk::runtime::{runtime_name, split_run_args, start_mode};
use ya_runtime_sdk::{Command, IntoVec, RuntimeMode};

#[test]
fn command_args_of_each_verb() {
    let args = vec!["deploy-arg".to_string()];
    assert_eq!(Command::Deploy { args: args.clone() }.args(), &args);
    assert_eq!(Command::Start { args: vec![] }.args(), &Vec::<String>::new());
    assert_eq!(Command::Run { args: args.clone() }.args(), &args);
    assert_eq!(Command::OfferTemplate { args: args.clone() }.args(), &args);
    assert_eq!(Command::Test { args: args.clone() }.args(), &args);
}

#[test]
fn run_args_split() {
    let (bin, rest) = split_run_args(&vec!["/bin/echo".to_string(), "a".to_string(), "b".to_string()]).unwrap();
    assert_eq!(bin, "/bin/echo");
    assert_eq!(rest, vec!["a".to_string(), "b".to_string()]);
    let (bin, rest) = split_run_args(&vec!["ls".to_string()]).unwrap();
    assert_eq!(bin, "ls");
    assert!(rest.is_empty());
}

#[test]
fn run_without_args_fails() {
    let e = split_run_args(&vec![]).unwrap_err();
    assert_eq!(e.message(), "not enough arguments");
}

#[test]
fn start_modes() {
    assert_eq!(start_mode(RuntimeMode::Server), "blocking");
    assert_eq!(start_mode(RuntimeMode::Command), "empty");
}

#[test]
fn name_override() {
    assert_eq!(runtime_name(Some("custom".to_string()), "built"), "custom");
    assert_eq!(runtime_name(None, "built"), "built");
}

#[test]
fn output_into_bytes() {
    assert_eq!("hé".into_vec(), vec![b'h', 0xc3, 0xa9]);
    assert_eq!(String::from("ok").into_vec(), b"ok".to_vec());
    assert_eq!((&b"raw"[..]).into_vec(), b"raw".to_vec());
    assert_eq!(vec![1u8, 2].into_vec(), vec![1u8, 2]);
}
