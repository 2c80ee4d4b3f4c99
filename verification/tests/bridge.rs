use pyembed_config::argv::{encode_arg, encode_argv, read_c_str};
use pyembed_config::config::{
    OxidizedPythonInterpreterConfig, ResolvedOxidizedPythonInterpreterConfig,
};
use pyembed_config::error::Error;
use pyembed_config::native::{create_config, set_argv, PyWideStringList};
use pyembed_config::status::{check_status, is_failure, PyStatus};

#[test]
fn encode_arg_appends_terminator() {
    let r = encode_arg(&b"abc".to_vec());
    assert_eq!(r, Some(vec![97, 98, 99, 0]));
}

#[test]
fn encode_arg_of_empty_is_terminator_only() {
    let r = encode_arg(&Vec::new());
    assert_eq!(r, Some(vec![0]));
}

#[test]
fn encode_arg_rejects_interior_nul() {
    let r = encode_arg(&vec![1, 0, 2]);
    assert!(r.is_none());
}

#[test]
fn encode_argv_encodes_each_argument() {
    let args = vec![b"spam".to_vec(), Vec::new(), b"eggs".to_vec()];
    let bufs = encode_argv(&args).unwrap();
    assert_eq!(bufs.len(), 3);
    assert_eq!(bufs[0], b"spam\0".to_vec());
    assert_eq!(bufs[1], b"\0".to_vec());
    assert_eq!(bufs[2], b"eggs\0".to_vec());
}

#[test]
fn encode_argv_reports_first_offending_argument() {
    let args = vec![b"fine".to_vec(), b"b\0ad".to_vec(), b"w\0rse".to_vec()];
    match encode_argv(&args) {
        Err(Error::EncodingError { index }) => assert_eq!(index, 1),
        _ => panic!("expected an encoding error"),
    }
}

#[test]
fn read_c_str_stops_at_first_nul() {
    let r = read_c_str(&b"ab\0cd".to_vec());
    assert_eq!(r, b"ab".to_vec());
}

#[test]
fn read_c_str_takes_whole_buffer_without_nul() {
    let r = read_c_str(&b"abc".to_vec());
    assert_eq!(r, b"abc".to_vec());
}

#[test]
fn encoded_arguments_read_back_byte_for_byte() {
    let args = vec![b"x".to_vec(), Vec::new(), b"hello world".to_vec()];
    let bufs = encode_argv(&args).unwrap();
    for (arg, buf) in args.iter().zip(bufs.iter()) {
        assert_eq!(&read_c_str(buf), arg);
    }
}

#[test]
fn status_with_function_name_is_failure() {
    let status = PyStatus {
        func: Some(b"init".to_vec()),
        err_msg: None,
        exitcode: 0,
    };
    assert!(is_failure(&status));
}

#[test]
fn status_with_message_is_failure() {
    let status = PyStatus {
        func: None,
        err_msg: Some(b"bad state".to_vec()),
        exitcode: 0,
    };
    assert!(is_failure(&status));
}

#[test]
fn status_without_name_or_message_is_success() {
    let status = PyStatus {
        func: None,
        err_msg: None,
        exitcode: 3,
    };
    assert!(!is_failure(&status));
}

#[test]
fn check_status_passes_success() {
    let status = PyStatus {
        func: None,
        err_msg: None,
        exitcode: 0,
    };
    assert!(check_status(status).is_ok());
}

#[test]
fn check_status_carries_reported_failure() {
    let status = PyStatus {
        func: Some(b"setter".to_vec()),
        err_msg: Some(b"rejected".to_vec()),
        exitcode: 1,
    };
    match check_status(status) {
        Err(Error::StatusError { status }) => {
            assert_eq!(status.func, Some(b"setter".to_vec()));
            assert_eq!(status.err_msg, Some(b"rejected".to_vec()));
            assert_eq!(status.exitcode, 1);
        }
        _ => panic!("expected a status error"),
    }
}

#[test]
fn empty_wide_string_list_has_matching_length() {
    let list = PyWideStringList::empty();
    assert_eq!(list.length, 0);
    assert_eq!(list.items.len(), 0);
}

#[test]
fn create_config_uses_isolated_defaults() {
    let config = create_config().unwrap();
    assert_eq!(config.isolated, 1);
    assert_eq!(config.use_environment, 0);
    assert_eq!(config.site_import, 0);
    assert_eq!(config.user_site_directory, 0);
    assert_eq!(config.dev_mode, 0);
    assert_eq!(config.install_signal_handlers, 0);
    assert_eq!(config.use_hash_seed, 0);
    assert_eq!(config.parse_argv, 0);
    assert!(config.program_name.is_none());
    assert!(config.home.is_none());
    assert_eq!(config.argv.length, 0);
    assert_eq!(config.argv.items.len(), 0);
}

#[test]
fn set_argv_installs_arguments_in_order() {
    let mut config = create_config().unwrap();
    let args = vec![b"hi".to_vec(), b"there".to_vec()];
    set_argv(&mut config, &args).unwrap();
    assert_eq!(config.argv.length, 2);
    assert_eq!(config.argv.items, args);
    assert_eq!(config.isolated, 1);
}

#[test]
fn set_argv_accepts_empty_argument_vector() {
    let mut config = create_config().unwrap();
    let args: Vec<Vec<u8>> = Vec::new();
    set_argv(&mut config, &args).unwrap();
    assert_eq!(config.argv.length, 0);
    assert_eq!(config.argv.items.len(), 0);
}

#[test]
fn set_argv_rejects_interior_nul_and_leaves_config() {
    let mut config = create_config().unwrap();
    let args = vec![b"o\0ps".to_vec()];
    match set_argv(&mut config, &args) {
        Err(Error::EncodingError { index }) => assert_eq!(index, 0),
        _ => panic!("expected an encoding error"),
    }
    assert_eq!(config.argv.length, 0);
    assert_eq!(config.argv.items.len(), 0);
    assert_eq!(config.isolated, 1);
}

#[test]
fn resolve_with_placeholder_unset_yields_single_empty_argv_entry() {
    let resolved = ResolvedOxidizedPythonInterpreterConfig::new(OxidizedPythonInterpreterConfig {
        placeholder: None,
    });
    let config = (&resolved).try_into().unwrap();
    assert_eq!(config.isolated, 1);
    assert_eq!(config.use_environment, 0);
    assert_eq!(config.site_import, 0);
    assert_eq!(config.argv.length, 1);
    assert_eq!(config.argv.items, vec![Vec::<u8>::new()]);
}

#[test]
fn resolve_with_placeholder_set_is_unsupported() {
    let resolved = ResolvedOxidizedPythonInterpreterConfig::new(OxidizedPythonInterpreterConfig {
        placeholder: Some(()),
    });
    match (&resolved).try_into() {
        Err(Error::UnsupportedOptionError) => {}
        _ => panic!("expected the unsupported-option error"),
    }
}
