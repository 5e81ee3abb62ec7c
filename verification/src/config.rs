//! Configuration model: compiler settings, fixture folder conventions and
//! named regions, together with the region mutation rules.

use vstd::prelude::*;

verus! {

/// A named, ordered collection of directory paths treated as one unit.
pub struct Region {
    pub name: String,
    pub dirs: Vec<String>,
}

/// A named, ordered list of pipeline commands saved for reuse.
pub struct PipePreset {
    pub name: String,
    pub commands: Vec<String>,
}

/// Process-wide settings: which compiler to run and with which flags, which
/// source filenames to look for, which subdirectories hold fixtures, the
/// default artifact name, and the user's named regions and pipe presets.
pub struct Config {
    pub c_compiler: String,
    pub c_compiler_opts: Vec<String>,
    pub source_code_filenames: Vec<String>,
    pub test_folder_names: Vec<String>,
    pub default_bin_output_name: String,
    pub pipes: Vec<PipePreset>,
    pub regions: Vec<Region>,
}

/// A region with the given name occurs in the list.
pub open spec fn has_region(regions: Seq<Region>, name: Seq<char>) -> bool {
    exists|i: int| 0 <= i < regions.len() && regions[i].name@ == name
}

/// Why a region mutation was rejected.
#[derive(Clone, Copy, PartialEq, Eq, Structural, Debug)]
pub enum RegionError {
    /// Overwriting an existing region needs the force flag.
    RegionExists,
}

impl Config {
    /// Region names are unique, so that a name resolves to one list of
    /// directories.
    pub open spec fn wf(self) -> bool {
        forall|i: int, j: int|
            0 <= i < j < self.regions@.len() ==> self.regions@[i].name@ != self.regions@[j].name@
    }

    /// All fields other than the region list are the same in both values.
    pub open spec fn same_but_regions(self, other: Config) -> bool {
        &&& self.c_compiler == other.c_compiler
        &&& self.c_compiler_opts == other.c_compiler_opts
        &&& self.source_code_filenames == other.source_code_filenames
        &&& self.test_folder_names == other.test_folder_names
        &&& self.default_bin_output_name == other.default_bin_output_name
        &&& self.pipes == other.pipes
    }

    /// Create or change the named region. With `add`, the directories are
    /// appended to an existing region (or a new region is created); without
    /// it, the region is created, and an existing region of that name is
    /// overwritten only when `force` is given, else the call fails with
    /// `RegionExists` and nothing changes.
    pub fn define_region(
        &mut self,
        name: String,
        dirs: Vec<String>,
        add: bool,
        force: bool,
    ) -> (r: Result<(), RegionError>)
        requires
            old(self).wf(),
        ensures
            final(self).wf(),
            final(self).same_but_regions(*old(self)),
            r is Err <==> (!add && !force && has_region(old(self).regions@, name@)),
            r is Err ==> r == Result::<(), RegionError>::Err(RegionError::RegionExists)
                && *final(self) == *old(self),
            r is Ok && !has_region(old(self).regions@, name@) ==> {
                &&& final(self).regions@.len() == old(self).regions@.len() + 1
                &&& forall|j: int|
                    0 <= j < old(self).regions@.len()
                        ==> final(self).regions@[j] == old(self).regions@[j]
                &&& final(self).regions@.last().name@ == name@
                &&& final(self).regions@.last().dirs == dirs
            },
            r is Ok && has_region(old(self).regions@, name@) ==> exists|i: int|
                {
                    &&& 0 <= i < old(self).regions@.len()
                    &&& old(self).regions@[i].name@ == name@
                    &&& final(self).regions@.len() == old(self).regions@.len()
                    &&& (forall|j: int|
                        0 <= j < old(self).regions@.len() && j != i
                            ==> final(self).regions@[j] == old(self).regions@[j])
                    &&& final(self).regions@[i].name@ == name@
                    &&& (add ==> final(self).regions@[i].dirs@
                        == old(self).regions@[i].dirs@ + dirs@)
                    &&& (!add ==> final(self).regions@[i].dirs == dirs)
                },
    {
        let n = self.regions.len();
        let mut i: usize = 0;
        while i < n
            invariant
                old(self).wf(),
                *self == *old(self),
                n == self.regions.len(),
                i <= n,
                forall|j: int| 0 <= j < i ==> self.regions@[j].name@ != name@,
            decreases n - i,
        {
            if self.regions[i].name == name {
                if add {
                    let ghost old_regions = self.regions@;
                    let mut reg = self.regions.remove(i);
                    let mut extra = dirs;
                    reg.dirs.append(&mut extra);
                    self.regions.insert(i, reg);
                    proof {
                        assert forall|j: int| 0 <= j < old_regions.len() && j != i implies
                            self.regions@[j] == old_regions[j] by {
                            assert(self.regions@ == old_regions.remove(i as int).insert(
                                i as int,
                                self.regions@[i as int],
                            ));
                        }
                        assert(old_regions == old(self).regions@);
                        assert(self.regions@[i as int].name@ == old_regions[i as int].name@);
                        lemma_names_unique_after_update(old_regions, self.regions@, i as int);
                    }
                    return Ok(());
                } else if force {
                    let ghost old_regions = self.regions@;
                    let _ = self.regions.remove(i);
                    self.regions.insert(i, Region { name, dirs });
                    proof {
                        assert forall|j: int| 0 <= j < old_regions.len() && j != i implies
                            self.regions@[j] == old_regions[j] by {
                            assert(self.regions@ == old_regions.remove(i as int).insert(
                                i as int,
                                self.regions@[i as int],
                            ));
                        }
                        assert(old_regions == old(self).regions@);
                        assert(self.regions@[i as int].name@ == old_regions[i as int].name@);
                        lemma_names_unique_after_update(old_regions, self.regions@, i as int);
                    }
                    return Ok(());
                } else {
                    return Err(RegionError::RegionExists);
                }
            }
            i += 1;
        }
        self.regions.push(Region { name, dirs });
        Ok(())
    }
}

/// Replacing one region with one of the same name keeps region names unique.
proof fn lemma_names_unique_after_update(rs0: Seq<Region>, rs1: Seq<Region>, i: int)
    requires
        forall|a: int, b: int| 0 <= a < b < rs0.len() ==> rs0[a].name@ != rs0[b].name@,
        0 <= i < rs0.len(),
        rs1.len() == rs0.len(),
        forall|j: int| 0 <= j < rs0.len() && j != i ==> rs1[j] == rs0[j],
        rs1[i].name@ == rs0[i].name@,
    ensures
        forall|a: int, b: int| 0 <= a < b < rs1.len() ==> rs1[a].name@ != rs1[b].name@,
{
    assert forall|a: int, b: int| 0 <= a < b < rs1.len() implies rs1[a].name@ != rs1[b].name@ by {
        assert(rs1[a].name@ == rs0[a].name@);
        assert(rs1[b].name@ == rs0[b].name@);
        assert(rs0[a].name@ != rs0[b].name@);
    }
}

impl Default for Config {
    /// The built-in configuration used when none is stored on disk. The
    /// compiler flags form a complete compile-to-executable invocation, with
    /// the output flag last so the artifact name follows it directly.
    fn default() -> (r: Config)
        ensures
            r.c_compiler@ == "g++"@,
            r.c_compiler_opts@.len() == 6,
            r.c_compiler_opts@[0]@ == "-std=c++20"@,
            r.c_compiler_opts@[1]@ == "-Wall"@,
            r.c_compiler_opts@[2]@ == "-pedantic"@,
            r.c_compiler_opts@[3]@ == "-Wno-long-long"@,
            r.c_compiler_opts@[4]@ == "-O2"@,
            r.c_compiler_opts@[5]@ == "-o"@,
            r.source_code_filenames@.len() == 1,
            r.source_code_filenames@[0]@ == "main.c"@,
            r.test_folder_names@.len() == 2,
            r.test_folder_names@[0]@ == "CZE"@,
            r.test_folder_names@[1]@ == "ENG"@,
            r.default_bin_output_name@ == "out"@,
            r.pipes@.len() == 0,
            r.regions@.len() == 0,
            r.wf(),
    {
        let mut opts: Vec<String> = Vec::new();
        opts.push(String::from_str("-std=c++20"));
        opts.push(String::from_str("-Wall"));
        opts.push(String::from_str("-pedantic"));
        opts.push(String::from_str("-Wno-long-long"));
        opts.push(String::from_str("-O2"));
        opts.push(String::from_str("-o"));
        let mut sources: Vec<String> = Vec::new();
        sources.push(String::from_str("main.c"));
        let mut folders: Vec<String> = Vec::new();
        folders.push(String::from_str("CZE"));
        folders.push(String::from_str("ENG"));
        Config {
            c_compiler: String::from_str("g++"),
            c_compiler_opts: opts,
            source_code_filenames: sources,
            test_folder_names: folders,
            default_bin_output_name: String::from_str("out"),
            pipes: Vec::new(),
            regions: Vec::new(),
        }
    }
}

} // verus!
