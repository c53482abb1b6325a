use vstd::prelude::*;

verus! {

/// The view of an optional string.
pub open spec fn opt_string_view(o: Option<String>) -> Option<Seq<char>> {
    match o {
        Some(s) => Some(s@),
        None => None,
    }
}

/// Settings file name used when none is given.
pub open spec fn default_settings_file_name() -> Seq<char> {
    "genpolicy-settings.json"@
}

/// Directory of the rule and settings files used when none is given.
pub open spec fn default_input_files_path() -> Seq<char> {
    "."@
}

/// The options given on the command line, with defaults filled in.
pub struct CommandLineOptions {
    /// Kubernetes input/output YAML file path; without it the standard
    /// streams are used.
    pub yaml_file: Option<String>,
    /// Optional Kubernetes config map YAML input file path.
    pub config_map_file: Option<String>,
    /// Name of the settings file, inside `input_files_path`.
    pub settings_file_name: String,
    /// Directory that holds `rules.rego` and the settings file.
    pub input_files_path: String,
    /// Create and use a cache of container image layer contents and
    /// dm-verity information.
    pub use_cached_files: bool,
    /// Print the output Rego policy text to standard output.
    pub raw_out: bool,
    /// Print the base64 encoded output Rego policy to standard output.
    pub base64_out: bool,
    /// Ignore unsupported input Kubernetes YAML fields.
    pub silent_unsupported_fields: bool,
}

/// Mathematical view of [`CommandLineOptions`].
pub struct OptionsView {
    pub yaml_file: Option<Seq<char>>,
    pub config_map_file: Option<Seq<char>>,
    pub settings_file_name: Seq<char>,
    pub input_files_path: Seq<char>,
    pub use_cached_files: bool,
    pub raw_out: bool,
    pub base64_out: bool,
    pub silent_unsupported_fields: bool,
}

impl View for CommandLineOptions {
    type V = OptionsView;

    open spec fn view(&self) -> OptionsView {
        OptionsView {
            yaml_file: opt_string_view(self.yaml_file),
            config_map_file: opt_string_view(self.config_map_file),
            settings_file_name: self.settings_file_name@,
            input_files_path: self.input_files_path@,
            use_cached_files: self.use_cached_files,
            raw_out: self.raw_out,
            base64_out: self.base64_out,
            silent_unsupported_fields: self.silent_unsupported_fields,
        }
    }
}

/// The options of an invocation that gives no flag at all.
pub open spec fn default_options() -> OptionsView {
    OptionsView {
        yaml_file: None,
        config_map_file: None,
        settings_file_name: default_settings_file_name(),
        input_files_path: default_input_files_path(),
        use_cached_files: false,
        raw_out: false,
        base64_out: false,
        silent_unsupported_fields: false,
    }
}

impl Default for CommandLineOptions {
    /// The options of an invocation that gives no flag at all.
    fn default() -> (r: Self)
        ensures
            r@ == default_options(),
    {
        CommandLineOptions {
            yaml_file: None,
            config_map_file: None,
            settings_file_name: String::from_str("genpolicy-settings.json"),
            input_files_path: String::from_str("."),
            use_cached_files: false,
            raw_out: false,
            base64_out: false,
            silent_unsupported_fields: false,
        }
    }
}

} // verus!
