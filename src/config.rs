use vstd::prelude::*;

use crate::options::{opt_string_view, CommandLineOptions, OptionsView};
use crate::paths::{join_path, join_path_exec};

verus! {

/// Application configuration, derived from the command line options.
#[derive(Clone, Debug)]
pub struct Config {
    pub use_cache: bool,
    pub yaml_file: Option<String>,
    pub rules_file: String,
    pub settings_file: String,
    pub config_map_files: Option<Vec<String>>,
    pub silent_unsupported_fields: bool,
    pub raw_out: bool,
    pub base64_out: bool,
}

/// Mathematical view of [`Config`].
pub struct ConfigView {
    pub use_cache: bool,
    pub yaml_file: Option<Seq<char>>,
    pub rules_file: Seq<char>,
    pub settings_file: Seq<char>,
    pub config_map_files: Option<Seq<Seq<char>>>,
    pub silent_unsupported_fields: bool,
    pub raw_out: bool,
    pub base64_out: bool,
}

/// The view of an optional list of strings.
pub open spec fn opt_strings_view(o: Option<Vec<String>>) -> Option<Seq<Seq<char>>> {
    match o {
        Some(v) => Some(v@.map_values(|s: String| s@)),
        None => None,
    }
}

impl View for Config {
    type V = ConfigView;

    open spec fn view(&self) -> ConfigView {
        ConfigView {
            use_cache: self.use_cache,
            yaml_file: opt_string_view(self.yaml_file),
            rules_file: self.rules_file@,
            settings_file: self.settings_file@,
            config_map_files: opt_strings_view(self.config_map_files),
            silent_unsupported_fields: self.silent_unsupported_fields,
            raw_out: self.raw_out,
            base64_out: self.base64_out,
        }
    }
}

/// Name of the rules file, inside the input files directory.
pub open spec fn rules_file_name() -> Seq<char> {
    "rules.rego"@
}

/// The config map files of a configuration: none when no config map file
/// was given, else a list that holds exactly the given one.
pub open spec fn config_map_files_of(config_map_file: Option<Seq<char>>) -> Option<Seq<Seq<char>>> {
    match config_map_file {
        Some(f) => Some(seq![f]),
        None => None,
    }
}

/// The configuration that a set of command line options resolves to.
pub open spec fn resolve(o: OptionsView) -> ConfigView {
    ConfigView {
        use_cache: o.use_cached_files,
        yaml_file: o.yaml_file,
        rules_file: join_path(o.input_files_path, rules_file_name()),
        settings_file: join_path(o.input_files_path, o.settings_file_name),
        config_map_files: config_map_files_of(o.config_map_file),
        silent_unsupported_fields: o.silent_unsupported_fields,
        raw_out: o.raw_out,
        base64_out: o.base64_out,
    }
}

impl Config {
    /// Resolves the command line options into the configuration: the rules
    /// and settings file paths are joined onto the input files directory,
    /// the config map file becomes a list of config map files, and every
    /// other option is copied.
    pub fn new(args: CommandLineOptions) -> (r: Config)
        ensures
            r@ == resolve(args@),
    {
        let rules_file = join_path_exec(args.input_files_path.as_str(), "rules.rego");
        let settings_file = join_path_exec(
            args.input_files_path.as_str(),
            args.settings_file_name.as_str(),
        );
        let config_map_files = match args.config_map_file {
            Some(config_map_file) => Some(vec![config_map_file]),
            None => None,
        };
        let r = Config {
            use_cache: args.use_cached_files,
            yaml_file: args.yaml_file,
            rules_file,
            settings_file,
            config_map_files,
            silent_unsupported_fields: args.silent_unsupported_fields,
            raw_out: args.raw_out,
            base64_out: args.base64_out,
        };
        proof {
            assert(opt_strings_view(r.config_map_files) =~= config_map_files_of(args@.config_map_file));
        }
        r
    }
}

/// Resolution is deterministic: configurations resolved from options with
/// the same value are equal.
pub proof fn lemma_resolve_deterministic(
    a: CommandLineOptions,
    b: CommandLineOptions,
    ca: Config,
    cb: Config,
)
    requires
        a@ == b@,
        ca@ == resolve(a@),
        cb@ == resolve(b@),
    ensures
        ca@ == cb@,
{
}

/// Resolving the same options twice gives two configurations that agree
/// field for field.
pub proof fn lemma_resolve_twice(args: CommandLineOptions, c1: Config, c2: Config)
    requires
        c1@ == resolve(args@),
        c2@ == resolve(args@),
    ensures
        c1.use_cache == c2.use_cache,
        opt_string_view(c1.yaml_file) == opt_string_view(c2.yaml_file),
        c1.rules_file@ == c2.rules_file@,
        c1.settings_file@ == c2.settings_file@,
        opt_strings_view(c1.config_map_files) == opt_strings_view(c2.config_map_files),
        c1.silent_unsupported_fields == c2.silent_unsupported_fields,
        c1.raw_out == c2.raw_out,
        c1.base64_out == c2.base64_out,
{
}

/// The config map files of a resolved configuration are absent exactly when
/// no config map file was given, and otherwise the one given file.
pub proof fn lemma_config_map_files(args: CommandLineOptions, c: Config)
    requires
        c@ == resolve(args@),
    ensures
        args.config_map_file.is_none() <==> c.config_map_files.is_none(),
        args.config_map_file.is_some() ==> c.config_map_files.unwrap()@.len() == 1
            && c.config_map_files.unwrap()@[0]@ == args.config_map_file.unwrap()@,
{
    if args.config_map_file.is_some() {
        let files = c.config_map_files.unwrap()@;
        assert(files.map_values(|s: String| s@) == seq![args.config_map_file.unwrap()@]);
        assert(files.map_values(|s: String| s@).len() == 1);
        assert(files.map_values(|s: String| s@)[0] == args.config_map_file.unwrap()@);
    }
}

} // verus!
