//! Model of the embedded runtime's native configuration struct.
//!
//! [`PyConfig`] mirrors the runtime's configuration struct field for field
//! and in the same order: numeric flags stay numeric, each string or path
//! pointer becomes `None` (a null pointer) or the bytes of the
//! null-terminated buffer it points to, and each (length, pointer-to-array)
//! list pair becomes a [`PyWideStringList`] whose length must equal its
//! element count. The raw struct that actually crosses the foreign-call
//! boundary lives outside the library; this model carries the values and
//! lets every decision about them be verified.
//!
//! A configuration value passes through three states: zero-filled
//! ([`PyConfig::is_zeroed`]), populated with the runtime's isolated-mode
//! defaults ([`PyConfig::is_isolated_init`]), and argv-installed
//! ([`PyConfig::argv_installed`]). Each builder step requires the previous
//! state, so a value in an earlier state is never read as if it were in a
//! later one.

use vstd::prelude::*;
use crate::argv::{c_str_read, encoded_arg, encode_argv, has_interior_nul};
use crate::error::Error;
use crate::status::{check_status, PyStatus};

verus! {

/// A native (length, pointer-to-array) list pair. The runtime stores a
/// signed element count and an array of pointers to wide strings; the
/// model stores the count and the strings' byte contents, and
/// [`PyWideStringList::wf`] states the invariant that the count equals the
/// element count.
#[derive(Debug)]
pub struct PyWideStringList {
    pub length: usize,
    pub items: Vec<Vec<u8>>,
}

impl PyWideStringList {
    /// The recorded length equals the array's element count.
    pub open spec fn wf(self) -> bool {
        self.length == self.items@.len()
    }

    /// No elements, and a length that says so.
    pub open spec fn is_empty(self) -> bool {
        self.length == 0 && self.items@.len() == 0
    }

    /// The empty list, as a zero-filled native list pair reads.
    pub fn empty() -> (r: PyWideStringList)
        ensures
            r.wf(),
            r.is_empty(),
    {
        PyWideStringList { length: 0, items: Vec::new() }
    }
}

/// Model of the runtime's configuration struct, field for field in the
/// runtime's own order.
#[derive(Debug)]
pub struct PyConfig {
    pub _config_init: i32,
    pub isolated: i32,
    pub use_environment: i32,
    pub dev_mode: i32,
    pub install_signal_handlers: i32,
    pub use_hash_seed: i32,
    pub hash_seed: u64,
    pub faulthandler: i32,
    pub _use_peg_parser: i32,
    pub tracemalloc: i32,
    pub import_time: i32,
    pub show_ref_count: i32,
    pub dump_refs: i32,
    pub malloc_stats: i32,
    pub filesystem_encoding: Option<Vec<u8>>,
    pub filesystem_errors: Option<Vec<u8>>,
    pub pycache_prefix: Option<Vec<u8>>,
    pub parse_argv: i32,
    pub argv: PyWideStringList,
    pub program_name: Option<Vec<u8>>,
    pub xoptions: PyWideStringList,
    pub warnoptions: PyWideStringList,
    pub site_import: i32,
    pub bytes_warning: i32,
    pub inspect: i32,
    pub interactive: i32,
    pub optimization_level: i32,
    pub parser_debug: i32,
    pub write_bytecode: i32,
    pub verbose: i32,
    pub quiet: i32,
    pub user_site_directory: i32,
    pub configure_c_stdio: i32,
    pub buffered_stdio: i32,
    pub stdio_encoding: Option<Vec<u8>>,
    pub stdio_errors: Option<Vec<u8>>,
    pub check_hash_pycs_mode: Option<Vec<u8>>,
    pub pathconfig_warnings: i32,
    pub pythonpath_env: Option<Vec<u8>>,
    pub home: Option<Vec<u8>>,
    pub module_search_paths_set: i32,
    pub module_search_paths: PyWideStringList,
    pub executable: Option<Vec<u8>>,
    pub base_executable: Option<Vec<u8>>,
    pub prefix: Option<Vec<u8>>,
    pub base_prefix: Option<Vec<u8>>,
    pub exec_prefix: Option<Vec<u8>>,
    pub base_exec_prefix: Option<Vec<u8>>,
    pub platlibdir: Option<Vec<u8>>,
    pub skip_source_first_line: i32,
    pub run_command: Option<Vec<u8>>,
    pub run_module: Option<Vec<u8>>,
    pub run_filename: Option<Vec<u8>>,
    pub _install_importlib: i32,
    pub _init_main: i32,
    pub _isolated_interpreter: i32,
    pub orig_argv: PyWideStringList,
}

impl PyConfig {
    /// The numeric fields that the isolation preset does not speak of are
    /// all zero.
    pub open spec fn bookkeeping_zero(self) -> bool {
        &&& self._config_init == 0
        &&& self.hash_seed == 0
        &&& self._use_peg_parser == 0
        &&& self.tracemalloc == 0
        &&& self.import_time == 0
        &&& self.show_ref_count == 0
        &&& self.dump_refs == 0
        &&& self.malloc_stats == 0
        &&& self.bytes_warning == 0
        &&& self.inspect == 0
        &&& self.interactive == 0
        &&& self.optimization_level == 0
        &&& self.parser_debug == 0
        &&& self.write_bytecode == 0
        &&& self.verbose == 0
        &&& self.quiet == 0
        &&& self.configure_c_stdio == 0
        &&& self.buffered_stdio == 0
        &&& self.module_search_paths_set == 0
        &&& self.skip_source_first_line == 0
        &&& self._install_importlib == 0
        &&& self._init_main == 0
        &&& self._isolated_interpreter == 0
    }

    /// The isolation-related flags as a zero fill leaves them.
    pub open spec fn isolation_flags_cleared(self) -> bool {
        &&& self.isolated == 0
        &&& self.use_environment == 0
        &&& self.dev_mode == 0
        &&& self.install_signal_handlers == 0
        &&& self.use_hash_seed == 0
        &&& self.faulthandler == 0
        &&& self.parse_argv == 0
        &&& self.site_import == 0
        &&& self.user_site_directory == 0
        &&& self.pathconfig_warnings == 0
    }

    /// The documented isolated-mode preset: isolation on, and
    /// environment-variable use, site import, user site directory, signal
    /// handlers, dev mode, hash-seed randomization, fault handler,
    /// argv parsing and path-config warnings all off.
    pub open spec fn isolated_mode_flags(self) -> bool {
        &&& self.isolated == 1
        &&& self.use_environment == 0
        &&& self.dev_mode == 0
        &&& self.install_signal_handlers == 0
        &&& self.use_hash_seed == 0
        &&& self.faulthandler == 0
        &&& self.parse_argv == 0
        &&& self.site_import == 0
        &&& self.user_site_directory == 0
        &&& self.pathconfig_warnings == 0
    }

    /// Every string or path pointer is null.
    pub open spec fn strings_null(self) -> bool {
        &&& self.filesystem_encoding is None
        &&& self.filesystem_errors is None
        &&& self.pycache_prefix is None
        &&& self.program_name is None
        &&& self.stdio_encoding is None
        &&& self.stdio_errors is None
        &&& self.check_hash_pycs_mode is None
        &&& self.pythonpath_env is None
        &&& self.home is None
        &&& self.executable is None
        &&& self.base_executable is None
        &&& self.prefix is None
        &&& self.base_prefix is None
        &&& self.exec_prefix is None
        &&& self.base_exec_prefix is None
        &&& self.platlibdir is None
        &&& self.run_command is None
        &&& self.run_module is None
        &&& self.run_filename is None
    }

    /// Every list field other than argv is empty.
    pub open spec fn other_lists_empty(self) -> bool {
        &&& self.xoptions.is_empty()
        &&& self.warnoptions.is_empty()
        &&& self.module_search_paths.is_empty()
        &&& self.orig_argv.is_empty()
    }

    /// Each list field's length equals its array's element count.
    pub open spec fn wf(self) -> bool {
        &&& self.argv.wf()
        &&& self.xoptions.wf()
        &&& self.warnoptions.wf()
        &&& self.module_search_paths.wf()
        &&& self.orig_argv.wf()
    }

    /// The zero-filled state: every numeric field zero, every pointer
    /// null, every list empty.
    pub open spec fn is_zeroed(self) -> bool {
        &&& self.bookkeeping_zero()
        &&& self.isolation_flags_cleared()
        &&& self.strings_null()
        &&& self.argv.is_empty()
        &&& self.other_lists_empty()
    }

    /// The runtime-initialized state: the isolated-mode preset over an
    /// otherwise zero configuration.
    pub open spec fn is_isolated_init(self) -> bool {
        &&& self.bookkeeping_zero()
        &&& self.isolated_mode_flags()
        &&& self.strings_null()
        &&& self.argv.is_empty()
        &&& self.other_lists_empty()
    }

    /// Every field except argv agrees with `other`.
    pub open spec fn same_except_argv(self, other: PyConfig) -> bool {
        &&& self._config_init == other._config_init
        &&& self.isolated == other.isolated
        &&& self.use_environment == other.use_environment
        &&& self.dev_mode == other.dev_mode
        &&& self.install_signal_handlers == other.install_signal_handlers
        &&& self.use_hash_seed == other.use_hash_seed
        &&& self.hash_seed == other.hash_seed
        &&& self.faulthandler == other.faulthandler
        &&& self._use_peg_parser == other._use_peg_parser
        &&& self.tracemalloc == other.tracemalloc
        &&& self.import_time == other.import_time
        &&& self.show_ref_count == other.show_ref_count
        &&& self.dump_refs == other.dump_refs
        &&& self.malloc_stats == other.malloc_stats
        &&& self.filesystem_encoding == other.filesystem_encoding
        &&& self.filesystem_errors == other.filesystem_errors
        &&& self.pycache_prefix == other.pycache_prefix
        &&& self.parse_argv == other.parse_argv
        &&& self.program_name == other.program_name
        &&& self.xoptions == other.xoptions
        &&& self.warnoptions == other.warnoptions
        &&& self.site_import == other.site_import
        &&& self.bytes_warning == other.bytes_warning
        &&& self.inspect == other.inspect
        &&& self.interactive == other.interactive
        &&& self.optimization_level == other.optimization_level
        &&& self.parser_debug == other.parser_debug
        &&& self.write_bytecode == other.write_bytecode
        &&& self.verbose == other.verbose
        &&& self.quiet == other.quiet
        &&& self.user_site_directory == other.user_site_directory
        &&& self.configure_c_stdio == other.configure_c_stdio
        &&& self.buffered_stdio == other.buffered_stdio
        &&& self.stdio_encoding == other.stdio_encoding
        &&& self.stdio_errors == other.stdio_errors
        &&& self.check_hash_pycs_mode == other.check_hash_pycs_mode
        &&& self.pathconfig_warnings == other.pathconfig_warnings
        &&& self.pythonpath_env == other.pythonpath_env
        &&& self.home == other.home
        &&& self.module_search_paths_set == other.module_search_paths_set
        &&& self.module_search_paths == other.module_search_paths
        &&& self.executable == other.executable
        &&& self.base_executable == other.base_executable
        &&& self.prefix == other.prefix
        &&& self.base_prefix == other.base_prefix
        &&& self.exec_prefix == other.exec_prefix
        &&& self.base_exec_prefix == other.base_exec_prefix
        &&& self.platlibdir == other.platlibdir
        &&& self.skip_source_first_line == other.skip_source_first_line
        &&& self.run_command == other.run_command
        &&& self.run_module == other.run_module
        &&& self.run_filename == other.run_filename
        &&& self._install_importlib == other._install_importlib
        &&& self._init_main == other._init_main
        &&& self._isolated_interpreter == other._isolated_interpreter
        &&& self.orig_argv == other.orig_argv
    }

    /// The argv list holds exactly the given argument strings, in order,
    /// with a matching length.
    pub open spec fn argv_installed(self, args: Seq<Seq<u8>>) -> bool {
        &&& self.argv.length == args.len()
        &&& self.argv.items@.len() == args.len()
        &&& forall|i: int| 0 <= i < args.len() ==> self.argv.items@[i]@ == args[i]
    }

    /// A freshly resolved configuration: the isolated-mode preset with a
    /// single empty placeholder argument installed as argv.
    pub open spec fn is_resolved_default(self) -> bool {
        &&& self.bookkeeping_zero()
        &&& self.isolated_mode_flags()
        &&& self.strings_null()
        &&& self.other_lists_empty()
        &&& self.argv_installed(seq![Seq::<u8>::empty()])
    }

    /// The zero-filled configuration, as zeroing a block sized to the
    /// native struct reads: every numeric field zero, every pointer null,
    /// every list empty.
    pub fn zeroed() -> (c: PyConfig)
        ensures
            c.is_zeroed(),
            c.wf(),
    {
        PyConfig {
            _config_init: 0,
            isolated: 0,
            use_environment: 0,
            dev_mode: 0,
            install_signal_handlers: 0,
            use_hash_seed: 0,
            hash_seed: 0,
            faulthandler: 0,
            _use_peg_parser: 0,
            tracemalloc: 0,
            import_time: 0,
            show_ref_count: 0,
            dump_refs: 0,
            malloc_stats: 0,
            filesystem_encoding: None,
            filesystem_errors: None,
            pycache_prefix: None,
            parse_argv: 0,
            argv: PyWideStringList::empty(),
            program_name: None,
            xoptions: PyWideStringList::empty(),
            warnoptions: PyWideStringList::empty(),
            site_import: 0,
            bytes_warning: 0,
            inspect: 0,
            interactive: 0,
            optimization_level: 0,
            parser_debug: 0,
            write_bytecode: 0,
            verbose: 0,
            quiet: 0,
            user_site_directory: 0,
            configure_c_stdio: 0,
            buffered_stdio: 0,
            stdio_encoding: None,
            stdio_errors: None,
            check_hash_pycs_mode: None,
            pathconfig_warnings: 0,
            pythonpath_env: None,
            home: None,
            module_search_paths_set: 0,
            module_search_paths: PyWideStringList::empty(),
            executable: None,
            base_executable: None,
            prefix: None,
            base_prefix: None,
            exec_prefix: None,
            base_exec_prefix: None,
            platlibdir: None,
            skip_source_first_line: 0,
            run_command: None,
            run_module: None,
            run_filename: None,
            _install_importlib: 0,
            _init_main: 0,
            _isolated_interpreter: 0,
            orig_argv: PyWideStringList::empty(),
        }
    }
}

/// Populates a zero-filled configuration with the runtime's canonical
/// isolated-mode defaults: isolation on, environment-variable consultation
/// and site customization off. Models the runtime's isolated-configuration
/// initializer on the value the runtime would produce from a zeroed block.
pub fn init_isolated_config(config: &mut PyConfig)
    requires
        old(config).is_zeroed(),
    ensures
        final(config).is_isolated_init(),
        final(config).wf(),
{
    config.isolated = 1;
}

/// Produces a zero-initialized, runtime-populated default configuration:
/// a fresh native configuration in the isolated-mode state with an empty
/// argv. Assumed infallible at this scope, hence always `Ok`.
pub fn create_config() -> (r: Result<PyConfig, Error>)
    ensures
        r matches Ok(c) && c.is_isolated_init() && c.wf(),
{
    let mut config: PyConfig = PyConfig::zeroed();
    init_isolated_config(&mut config);
    Ok(config)
}

/// Installs an argument vector handed over as null-terminated byte
/// buffers, the way the runtime's argv-installing entry point consumes a
/// (count, pointer array) pair: each buffer is read back as a
/// null-terminated string and stored, the argv length is set to the count,
/// no other field is touched, and a non-failure status is returned.
pub fn set_bytes_argv(config: &mut PyConfig, bufs: &Vec<Vec<u8>>) -> (status: PyStatus)
    ensures
        !status.is_error(),
        final(config).same_except_argv(*old(config)),
        final(config).argv.wf(),
        final(config).argv.length == bufs@.len(),
        final(config).argv.items@.len() == bufs@.len(),
        forall|i: int|
            0 <= i < bufs@.len() ==> final(config).argv.items@[i]@ == c_str_read(bufs@[i]@),
{
    let mut items: Vec<Vec<u8>> = Vec::new();
    let mut i: usize = 0;
    while i < bufs.len()
        invariant
            0 <= i <= bufs@.len(),
            items@.len() == i,
            forall|j: int| 0 <= j < i ==> items@[j]@ == c_str_read(bufs@[j]@),
        decreases bufs@.len() - i,
    {
        let s = crate::argv::read_c_str(&bufs[i]);
        items.push(s);
        i = i + 1;
    }
    config.argv = PyWideStringList { length: bufs.len(), items };
    PyStatus { func: None, err_msg: None, exitcode: 0 }
}

/// Converts an ordered argument sequence into a native argument vector and
/// installs it in the configuration, checking the returned status.
///
/// Succeeds exactly when no argument holds an interior null byte; the
/// argv list then holds the arguments byte for byte with a matching
/// length, and no other field changes. An argument with an interior null
/// byte yields [`Error::EncodingError`] naming the first such argument,
/// and the configuration is left untouched: the runtime's argv setter is
/// never reached with malformed input.
pub fn set_argv(config: &mut PyConfig, args: &Vec<Vec<u8>>) -> (r: Result<(), Error>)
    ensures
        r is Ok <==> (forall|i: int| 0 <= i < args@.len() ==> !has_interior_nul(args@[i]@)),
        r is Ok ==> {
            &&& final(config).same_except_argv(*old(config))
            &&& final(config).argv.wf()
            &&& final(config).argv_installed(args@.map_values(|a: Vec<u8>| a@))
        },
        r is Err ==> *final(config) == *old(config),
        r matches Err(e) ==> {
            &&& e matches Error::EncodingError { index }
            &&& 0 <= index < args@.len()
            &&& has_interior_nul(args@[index as int]@)
            &&& forall|j: int| 0 <= j < index ==> !has_interior_nul(args@[j]@)
        },
{
    let bufs: Vec<Vec<u8>> = match encode_argv(args) {
        Ok(bufs) => bufs,
        Err(e) => {
            return Err(e);
        },
    };
    let status = set_bytes_argv(config, &bufs);
    match check_status(status) {
        Ok(()) => {
            proof {
                assert forall|i: int|
                    0 <= i < args@.len() implies config.argv.items@[i]@ == args@.map_values(
                    |a: Vec<u8>| a@,
                )[i] by {
                    crate::argv::lemma_arg_round_trip(args@[i]@);
                    assert(bufs@[i]@ == encoded_arg(args@[i]@));
                }
            }
            Ok(())
        },
        Err(e) => Err(e),
    }
}

} // verus!
