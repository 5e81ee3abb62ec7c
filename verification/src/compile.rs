//! Planning and interpretation of one compiler invocation: pick the source
//! file, build the command line, and turn the observed outcome into a
//! structured result.

use vstd::prelude::*;
use crate::config::Config;
use crate::util::{clone_string_vec, join_path};

verus! {

/// The compiler-related part of the configuration, loaded once per
/// invocation and immutable for its duration.
pub struct CompileSettings {
    pub c_compiler: String,
    pub c_compiler_opts: Vec<String>,
    pub source_code_filenames: Vec<String>,
    pub default_bin_output_name: String,
}

impl Config {
    /// The compiler settings of this configuration, as one immutable value.
    pub fn compile_settings(&self) -> (s: CompileSettings)
        ensures
            s.c_compiler == self.c_compiler,
            s.c_compiler_opts@ == self.c_compiler_opts@,
            s.source_code_filenames@ == self.source_code_filenames@,
            s.default_bin_output_name == self.default_bin_output_name,
    {
        CompileSettings {
            c_compiler: self.c_compiler.clone(),
            c_compiler_opts: clone_string_vec(&self.c_compiler_opts),
            source_code_filenames: clone_string_vec(&self.source_code_filenames),
            default_bin_output_name: self.default_bin_output_name.clone(),
        }
    }
}

/// One planned child-process invocation: a program, its arguments in order,
/// and the directory it runs in.
pub struct CompileCommand {
    pub program: String,
    pub args: Vec<String>,
    pub working_dir: String,
}

/// Outcome of one compilation request.
pub enum CompileResult {
    /// The compiler exited 0 and the artifact exists on disk.
    Success { artifact: String },
    /// No candidate source filename exists in the target directory.
    NoSourceFound,
    /// The compiler exited nonzero; its captured output, verbatim.
    CompilerError { diagnostics: String, exit_code: i32 },
    /// The compiler exited 0 but the artifact is not on disk.
    ArtifactMissing { artifact: String },
}

/// The artifact name one invocation uses: the explicitly requested name if
/// any, else the configured default.
pub open spec fn resolved_output(settings: CompileSettings, output_name: Option<String>) -> String {
    match output_name {
        Some(name) => name,
        None => settings.default_bin_output_name,
    }
}

/// Drives the external compiler: plans the invocation and interprets what
/// came back. The process launch itself happens outside the library.
pub struct CompilerDriver;

impl CompilerDriver {
    /// Index of the source file to compile: the first candidate filename
    /// that is present in the target directory (`present[i]` reports whether
    /// `candidates[i]` exists there). `None` when no candidate is present.
    pub fn select_source(candidates: &Vec<String>, present: &Vec<bool>) -> (r: Option<usize>)
        requires
            candidates@.len() == present@.len(),
        ensures
            match r {
                Some(i) => i < candidates@.len() && present@[i as int] && (forall|j: int|
                    0 <= j < i ==> !present@[j]),
                None => forall|j: int| 0 <= j < present@.len() ==> !present@[j],
            },
    {
        let n = candidates.len();
        let mut i: usize = 0;
        while i < n
            invariant
                n == present@.len(),
                n == candidates@.len(),
                i <= n,
                forall|j: int| 0 <= j < i ==> !present@[j],
            decreases n - i,
        {
            if present[i] {
                return Some(i);
            }
            i += 1;
        }
        None
    }

    /// The command line for one compilation: the configured compiler, its
    /// flags in order, then the resolved artifact name and the source file,
    /// run inside the source directory.
    pub fn build_command(
        settings: &CompileSettings,
        source_dir: &String,
        source_file: &String,
        output_name: &Option<String>,
    ) -> (c: CompileCommand)
        ensures
            c.program == settings.c_compiler,
            c.working_dir == source_dir,
            c.args@.len() == settings.c_compiler_opts@.len() + 2,
            c.args@.subrange(0, settings.c_compiler_opts@.len() as int)
                == settings.c_compiler_opts@,
            c.args@[settings.c_compiler_opts@.len() as int]
                == resolved_output(*settings, *output_name),
            c.args@.last() == source_file,
    {
        let mut args = clone_string_vec(&settings.c_compiler_opts);
        let ghost opts = settings.c_compiler_opts@;
        match output_name {
            Some(name) => args.push(name.clone()),
            None => args.push(settings.default_bin_output_name.clone()),
        }
        args.push(source_file.clone());
        proof {
            assert(args@.subrange(0, opts.len() as int) =~= opts);
        }
        CompileCommand {
            program: settings.c_compiler.clone(),
            args,
            working_dir: source_dir.clone(),
        }
    }

    /// The path where the artifact of one compilation is expected: next to
    /// the source, under the resolved output name.
    pub fn artifact_path(
        settings: &CompileSettings,
        source_dir: &String,
        output_name: &Option<String>,
    ) -> (p: String)
        ensures
            p@ == source_dir@ + "/"@ + resolved_output(*settings, *output_name)@,
    {
        match output_name {
            Some(name) => join_path(source_dir, name),
            None => join_path(source_dir, &settings.default_bin_output_name),
        }
    }

    /// Structured result of a finished compiler run. A nonzero exit code is a
    /// compiler error carrying the captured diagnostics verbatim; a zero exit
    /// code succeeds exactly when the artifact is now on disk
    /// (`artifact_exists` reports what the filesystem said), and is otherwise
    /// the distinct `ArtifactMissing` failure.
    pub fn interpret(
        exit_code: i32,
        diagnostics: String,
        artifact: String,
        artifact_exists: bool,
    ) -> (r: CompileResult)
        ensures
            exit_code != 0 ==> r == (CompileResult::CompilerError { diagnostics, exit_code }),
            exit_code == 0 && artifact_exists ==> r == (CompileResult::Success { artifact }),
            exit_code == 0 && !artifact_exists ==> r == (CompileResult::ArtifactMissing {
                artifact,
            }),
    {
        if exit_code != 0 {
            CompileResult::CompilerError { diagnostics, exit_code }
        } else if artifact_exists {
            CompileResult::Success { artifact }
        } else {
            CompileResult::ArtifactMissing { artifact }
        }
    }
}

} // verus!
