//! The data model of the catalog: libraries and the two ways to build one.

use vstd::prelude::*;
use crate::text::{names, texts};

verus! {

/// The compiler toolset that a run builds with.
#[derive(Clone, Copy, Debug, PartialEq, Eq, Structural)]
pub enum VisualStudioToolsetVersion {
    V140,
    V141,
    V142,
}

/// One library of the catalog. Its `name` is also the name of the directory
/// that it is installed into, and so the key by which a finished build is recognised.
pub struct LibraryDetails {
    pub name: &'static str,
    pub file_name: &'static str,
    pub build_type: BuildType,
}

/// A configure / build / install flow driven by CMake.
pub struct CMakeDetails {
    pub cmake_local_path: Option<Vec<&'static str>>,
    pub extra_configure_args: Vec<String>,
}

/// One program run of a custom build.
pub struct CustomBuildStep {
    pub name: &'static str,
    pub command: &'static str,
    pub args: Vec<String>,
    pub in_current_dir: bool,
}

/// An ordered list of program runs.
pub struct CustomBuildDetails {
    pub steps: Vec<CustomBuildStep>,
}

/// How one library is built.
pub enum BuildType {
    CMake(CMakeDetails),
    Custom(CustomBuildDetails),
}

/// What a [`CustomBuildStep`] holds.
pub struct StepModel {
    pub name: Seq<char>,
    pub command: Seq<char>,
    pub args: Seq<Seq<char>>,
    pub in_current_dir: bool,
}

/// What a [`BuildType`] holds.
pub enum StrategyModel {
    CMake { local_path: Option<Seq<Seq<char>>>, extra_args: Seq<Seq<char>> },
    Custom { steps: Seq<StepModel> },
}

/// What a [`LibraryDetails`] holds.
pub struct LibraryModel {
    pub name: Seq<char>,
    pub file_name: Seq<char>,
    pub strategy: StrategyModel,
}

impl View for CustomBuildStep {
    type V = StepModel;

    open spec fn view(&self) -> StepModel {
        StepModel {
            name: self.name@,
            command: self.command@,
            args: texts(self.args@),
            in_current_dir: self.in_current_dir,
        }
    }
}

/// The models of a list of steps, in order.
pub open spec fn step_models(v: Seq<CustomBuildStep>) -> Seq<StepModel> {
    Seq::new(v.len(), |i: int| v[i]@)
}

impl View for CMakeDetails {
    type V = StrategyModel;

    open spec fn view(&self) -> StrategyModel {
        StrategyModel::CMake {
            local_path: match self.cmake_local_path {
                Some(p) => Some(names(p@)),
                None => None,
            },
            extra_args: texts(self.extra_configure_args@),
        }
    }
}

impl View for CustomBuildDetails {
    type V = StrategyModel;

    open spec fn view(&self) -> StrategyModel {
        StrategyModel::Custom { steps: step_models(self.steps@) }
    }
}

impl View for BuildType {
    type V = StrategyModel;

    open spec fn view(&self) -> StrategyModel {
        match self {
            BuildType::CMake(d) => d@,
            BuildType::Custom(d) => d@,
        }
    }
}

impl View for LibraryDetails {
    type V = LibraryModel;

    open spec fn view(&self) -> LibraryModel {
        LibraryModel { name: self.name@, file_name: self.file_name@, strategy: self.build_type@ }
    }
}

/// The models of a list of libraries, in order.
pub open spec fn library_models(v: Seq<LibraryDetails>) -> Seq<LibraryModel> {
    Seq::new(v.len(), |i: int| v[i]@)
}

} // verus!
