//! The settings a host hands over when it describes an environment.

use vstd::prelude::*;
use vstd::string::*;

use crate::error::EnvError;
use crate::layout::Platform;
use crate::python_env::{described, PythonEnv};

verus! {

/// Where the environment lives and what it is made of.
#[derive(Debug)]
pub struct PythonConfig {
    /// File name of the interpreter inside the environment.
    pub python_exe: String,
    /// Root directory of the environment.
    pub venv_path: String,
    /// The file that lists the packages to install.
    pub requirements_file: String,
}

impl Default for PythonConfig {
    fn default() -> (config: Self)
        ensures
            config.python_exe@ == "python"@,
            config.venv_path@ == "./venv"@,
            config.requirements_file@ == "requirements.txt"@,
    {
        PythonConfig {
            python_exe: String::from_str("python"),
            venv_path: String::from_str("./venv"),
            requirements_file: String::from_str("requirements.txt"),
        }
    }
}

/// The settings of the whole application.
#[derive(Debug)]
pub struct Config {
    pub app_name: String,
    pub database_url: String,
    pub python: PythonConfig,
}

impl Default for Config {
    fn default() -> (config: Self)
        ensures
            config.app_name@ == "Hello world!"@,
            config.database_url@ == "sqlite:app.db"@,
            config.python.python_exe@ == "python"@,
            config.python.venv_path@ == "./venv"@,
            config.python.requirements_file@ == "requirements.txt"@,
    {
        Config {
            app_name: String::from_str("Hello world!"),
            database_url: String::from_str("sqlite:app.db"),
            python: PythonConfig::default(),
        }
    }
}

impl Config {
    /// Describes the environment that these settings name, laid out as
    /// `platform` has it. Never fails.
    pub fn create_python_env(&self, platform: Platform) -> (env: Result<PythonEnv, EnvError>)
        ensures
            env is Ok,
            env->Ok_0@ == described(self.python.venv_path@, self.python.python_exe@, platform),
    {
        PythonEnv::new_with_config(&self.python, platform)
    }
}

} // verus!
