//! The command line of the compiler, as far as it decides anything.

use crate::text::same_text;
use vstd::prelude::*;

verus! {

/// The arguments of the compiler.
#[derive(Debug)]
pub struct Cli {
    /// Path to the configuration file.
    pub config: Option<std::string::String>,
    /// Whether to write a default configuration and exit.
    pub generate_config: bool,
    /// Path to the specification.
    pub path: Option<std::string::String>,
    /// The target language.
    pub language: Option<std::string::String>,
}

impl Cli {
    /// The arguments of a compilation.
    pub fn new(
        config: Option<std::string::String>,
        path: std::string::String,
        language: std::string::String,
    ) -> (cli: Cli)
        ensures
            cli.config == config,
            !cli.generate_config,
            cli.path == Some(path),
            cli.language == Some(language),
    {
        Cli { config, generate_config: false, path: Some(path), language: Some(language) }
    }
}

/// What the compiler is asked to do.
#[derive(Debug)]
pub enum Command {
    /// Write a default configuration and exit.
    GenerateConfig,
    /// Compile the specification at `path` to `language`.
    Compile {
        config: Option<std::string::String>,
        path: std::string::String,
        language: std::string::String,
    },
    /// The arguments name no specification, or no target language.
    Incomplete,
}

/// What the arguments ask for. A request for the default configuration
/// goes before everything else; a compilation needs both a path and a
/// language.
pub fn run_with(args: Cli) -> (command: Command)
    ensures
        args.generate_config ==> command is GenerateConfig,
        !args.generate_config ==> match (args.path, args.language) {
            (Some(path), Some(language)) => command == (Command::Compile {
                config: args.config,
                path,
                language,
            }),
            _ => command is Incomplete,
        },
{
    if args.generate_config {
        Command::GenerateConfig
    } else {
        match (args.path, args.language) {
            (Some(path), Some(language)) => Command::Compile { config: args.config, path, language },
            _ => Command::Incomplete,
        }
    }
}

/// The languages that a specification can be compiled to.
#[derive(Copy, Clone, Debug, PartialEq, Eq, Structural)]
pub enum TargetLanguage {
    Cpp,
    CSharp,
    Gdscript,
    Java8,
    JavaScript,
    PlantUml,
    Python3,
    Rust,
    Smcat,
}

/// The language that a selector names.
pub open spec fn language_named(name: Seq<char>) -> Option<TargetLanguage> {
    if name == "c_sharp"@ {
        Some(TargetLanguage::CSharp)
    } else if name == "cpp"@ {
        Some(TargetLanguage::Cpp)
    } else if name == "gdscript"@ {
        Some(TargetLanguage::Gdscript)
    } else if name == "java_8"@ {
        Some(TargetLanguage::Java8)
    } else if name == "javascript"@ {
        Some(TargetLanguage::JavaScript)
    } else if name == "plantuml"@ {
        Some(TargetLanguage::PlantUml)
    } else if name == "python_3"@ {
        Some(TargetLanguage::Python3)
    } else if name == "rust"@ {
        Some(TargetLanguage::Rust)
    } else if name == "smcat"@ {
        Some(TargetLanguage::Smcat)
    } else {
        None
    }
}

/// The language that `name` selects, if it selects one.
pub fn target_language(name: &str) -> (language: Option<TargetLanguage>)
    ensures
        language == language_named(name@),
{
    if same_text(name, "c_sharp") {
        Some(TargetLanguage::CSharp)
    } else if same_text(name, "cpp") {
        Some(TargetLanguage::Cpp)
    } else if same_text(name, "gdscript") {
        Some(TargetLanguage::Gdscript)
    } else if same_text(name, "java_8") {
        Some(TargetLanguage::Java8)
    } else if same_text(name, "javascript") {
        Some(TargetLanguage::JavaScript)
    } else if same_text(name, "plantuml") {
        Some(TargetLanguage::PlantUml)
    } else if same_text(name, "python_3") {
        Some(TargetLanguage::Python3)
    } else if same_text(name, "rust") {
        Some(TargetLanguage::Rust)
    } else if same_text(name, "smcat") {
        Some(TargetLanguage::Smcat)
    } else {
        None
    }
}

} // verus!
