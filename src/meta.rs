//! Run configurations, command-line overrides, and the files generated for a
//! project.

use vstd::prelude::*;
use crate::error::EnvyrError;
use crate::package::{Pack, PackBuilder, PType};

verus! {

/// Where a project runs.
#[derive(Debug, Clone, Copy, PartialEq, Eq, Structural)]
pub enum Executors {
    Docker,
    Nix,
    Native,
}

impl Default for Executors {
    fn default() -> (r: Self)
        ensures
            r == Executors::Docker,
    {
        Executors::Docker
    }
}

/// Something that can be installed, reporting what it installed.
pub trait Installable {
    fn install(&self) -> Result<String, EnvyrError>;
}

/// Values given on the command line that replace what analysis finds.
#[derive(Debug, Clone)]
pub struct OverrideOpts {
    pub name: Option<String>,
    pub interpreter: Option<String>,
    pub entrypoint: Option<String>,
    pub ptype: Option<PType>,
}

/// Everything a run needs; kept under an alias to repeat the run later.
#[derive(Debug, Clone)]
pub struct RunConfig {
    pub project_root: String,
    pub sub_dir: Option<String>,
    pub executor: Executors,
    pub interactive: bool,
    pub network: Option<String>,
    pub refresh: bool,
    pub autogen: bool,
    pub tag: String,
    pub fs_map: Vec<String>,
    pub port_map: Vec<String>,
    pub env_map: Vec<String>,
    pub timeout: Option<u32>,
    pub overrides: OverrideOpts,
    pub args: Vec<String>,
}

impl RunConfig {
    /// The configuration with the arguments of a new invocation, when it
    /// gives any.
    pub fn with_args(self, args: Vec<String>) -> (r: RunConfig)
        ensures
            args@.len() > 0 ==> r == (RunConfig { args, ..self }),
            args@.len() == 0 ==> r == self,
    {
        if args.len() > 0 {
            RunConfig { args, ..self }
        } else {
            self
        }
    }
}

/// The builder with every override that is given put in place.
pub fn override_builder_opts(args: OverrideOpts, pack_builder: PackBuilder) -> (r: PackBuilder)
    ensures
        r.project_root == pack_builder.project_root,
        r.executables == pack_builder.executables,
        r.package_main == pack_builder.package_main,
        r.name == (if args.name is Some {
            args.name
        } else {
            pack_builder.name
        }),
        r.interpreter == (if args.interpreter is Some {
            args.interpreter
        } else {
            pack_builder.interpreter
        }),
        r.entrypoint == (if args.entrypoint is Some {
            args.entrypoint
        } else {
            pack_builder.entrypoint
        }),
        r.ptype == (match args.ptype {
            Some(t) => t,
            None => pack_builder.ptype,
        }),
{
    let mut b = pack_builder;
    let OverrideOpts { name, interpreter, entrypoint, ptype } = args;
    if let Some(name) = name {
        b = b.name(name);
    }
    if let Some(interpreter) = interpreter {
        b = b.interpreter(interpreter);
    }
    if let Some(entrypoint) = entrypoint {
        b = b.entrypoint(entrypoint);
    }
    if let Some(ptype) = ptype {
        b = b.ptype(ptype);
    }
    b
}

/// One step of generating a project's files.
#[derive(Debug, Clone, Copy, PartialEq, Eq, Structural)]
pub enum GenerateTask {
    /// Create `.envyr` below the project root.
    MetaDir,
    /// Write the manifest to `.envyr/meta.json`.
    SaveManifest,
    /// Make sure there is a `requirements.txt`.
    PythonRequirements,
    /// Write `.envyr/Dockerfile` and `.dockerignore`.
    DockerFiles,
}

/// Generates the files that describe a project.
#[derive(Debug, Clone)]
pub struct Generator {
    pub pack: Pack,
}

impl Generator {
    pub fn new(pack: Pack) -> (r: Self)
        ensures
            r.pack == pack,
    {
        Generator { pack }
    }

    /// Whether to try generating a `requirements.txt`: only when there is
    /// none.
    pub fn generate_python(&self, has_requirements_txt: bool) -> (r: bool)
        ensures
            r == !has_requirements_txt,
    {
        !has_requirements_txt
    }

    /// The steps that generate a project's files, in order: the meta
    /// directory, the manifest, for Python the requirements, then the
    /// container files.
    pub fn generate(&self) -> (r: Vec<GenerateTask>)
        ensures
            self.pack.ptype == PType::Python ==> r@ == seq![
                GenerateTask::MetaDir,
                GenerateTask::SaveManifest,
                GenerateTask::PythonRequirements,
                GenerateTask::DockerFiles,
            ],
            self.pack.ptype != PType::Python ==> r@ == seq![
                GenerateTask::MetaDir,
                GenerateTask::SaveManifest,
                GenerateTask::DockerFiles,
            ],
    {
        let mut r: Vec<GenerateTask> = Vec::new();
        r.push(GenerateTask::MetaDir);
        r.push(GenerateTask::SaveManifest);
        if self.pack.ptype == PType::Python {
            r.push(GenerateTask::PythonRequirements);
        }
        r.push(GenerateTask::DockerFiles);
        assert(r@ =~= (if self.pack.ptype == PType::Python {
            seq![
                GenerateTask::MetaDir,
                GenerateTask::SaveManifest,
                GenerateTask::PythonRequirements,
                GenerateTask::DockerFiles,
            ]
        } else {
            seq![GenerateTask::MetaDir, GenerateTask::SaveManifest, GenerateTask::DockerFiles]
        }));
        r
    }
}

} // verus!
