//! The catalog: the libraries of one run, in the order in which they are built.
//!
//! The order matters. A later library may be configured with the install
//! directory of an earlier one, which must then exist on disk.

use vstd::prelude::*;
use vstd::string::*;
use crate::text::{empty_texts, forward_slashes, join3, normalize_separators, push_text, texts};
use crate::toolset::boost_toolset;
use crate::types::{
    BuildType, CMakeDetails, CustomBuildDetails, CustomBuildStep, LibraryDetails, LibraryModel,
    StepModel, StrategyModel, VisualStudioToolsetVersion, library_models, step_models,
};

verus! {

/// A library built with CMake from the top of its source tree.
pub open spec fn cmake_model(name: Seq<char>, file_name: Seq<char>, extra_args: Seq<Seq<char>>) -> LibraryModel {
    LibraryModel { name, file_name, strategy: StrategyModel::CMake { local_path: None, extra_args } }
}

/// The argument that points a library at the zlib installed under `dir`.
pub open spec fn zlib_root(dir: Seq<char>) -> Seq<char> {
    "-DZLIB_ROOT="@ + dir + "/zlib-1.2.13/"@
}

/// The argument that points a library at the GLFW headers installed under `dir`.
pub open spec fn glfw_include(dir: Seq<char>) -> Seq<char> {
    "-DGLFW_INCLUDE_DIR="@ + dir + "/glfw-3.3.8/include"@
}

/// The search path that OpenImageIO is configured with.
pub open spec fn oiio_prefix_path(dir: Seq<char>) -> Seq<char> {
    "-DCMAKE_PREFIX_PATH="@ + dir + "/openexr-2.5.8;"@ + dir + "/libtiff-4.5.0;"@ + dir
        + "/libjpeg-turbo-2.1.5.1"@
}

/// The two program runs that build Boost.
pub open spec fn boost_steps(dir: Seq<char>, toolset: VisualStudioToolsetVersion) -> Seq<StepModel> {
    seq![
        StepModel {
            name: "bootstrap"@,
            command: "cmd"@,
            args: seq!["/c"@, "bootstrap.bat"@],
            in_current_dir: false,
        },
        StepModel {
            name: "b2_build"@,
            command: "b2.exe"@,
            args: seq![
                "install"@,
                "--prefix="@ + dir + "/boost-1.80.0/"@,
                boost_toolset(toolset),
                "variant=release"@,
                "link=static"@,
                "threading=multi"@,
                "address-model=64"@,
                "runtime-link=shared"@,
                "--with-filesystem"@,
                "--with-regex"@,
                "--with-system"@,
                "--with-thread"@,
                "--with-date_time"@,
                "--with-chrono"@,
                "--with-atomic"@,
            ],
            in_current_dir: true,
        },
    ]
}

/// The catalog for artifacts under `dir`, a path written with forward slashes.
pub open spec fn catalog_model(dir: Seq<char>, toolset: VisualStudioToolsetVersion) -> Seq<LibraryModel> {
    seq![
        cmake_model("zlib-1.2.13"@, "zlib-1.2.13.tar.gz"@, seq![]),
        cmake_model(
            "libjpeg-turbo-2.1.5.1"@,
            "libjpeg-turbo-2.1.5.1.tar.gz"@,
            seq!["-DWITH_CRT_DLL=True"@, "-DWITH_TURBOJPEG=False"@, "-DENABLE_SHARED=False"@],
        ),
        cmake_model("libpng-1.6.39"@, "libpng-1.6.39.tar.gz"@, seq!["-DPNG_SHARED=False"@, zlib_root(dir)]),
        cmake_model("libtiff-4.5.0"@, "tiff-4.5.0.tar.gz"@, seq!["-DBUILD_SHARED_LIBS=False"@, zlib_root(dir)]),
        cmake_model("openexr-2.5.8"@, "openexr-2.5.8.tar.gz"@, seq!["-DBUILD_SHARED_LIBS=False"@, zlib_root(dir)]),
        cmake_model(
            "freeglut-3.2.2"@,
            "freeglut-3.2.2.tar.gz"@,
            seq!["-DFREEGLUT_BUILD_DEMOS=False"@, "-DFREEGLUT_BUILD_SHARED_LIBS=False"@],
        ),
        LibraryModel {
            name: "glew-2.1.0"@,
            file_name: "glew-2.1.0.tgz"@,
            strategy: StrategyModel::CMake { local_path: Some(seq!["build"@, "cmake"@]), extra_args: seq![] },
        },
        cmake_model("glfw-3.3.8"@, "glfw-3.3.8.zip"@, seq![]),
        LibraryModel {
            name: "boost-1.80.0"@,
            file_name: "boost_1_80_0.tar.gz"@,
            strategy: StrategyModel::Custom { steps: boost_steps(dir, toolset) },
        },
        cmake_model(
            "oneTBB-2021.3.0"@,
            "oneTBB-2021.3.0-custom.tar.gz"@,
            seq![
                "-DBUILD_SHARED_LIBS=False"@,
                "-DTBB_TEST=False"@,
                "-DTBB_STRICT=False"@,
                "-DCMAKE_CXX_FLAGS=\"/D__TBB_SOURCE_DIRECTLY_INCLUDED\""@,
            ],
        ),
        cmake_model("imgui-1.88"@, "imgui-1.88-custom.tar.gz"@, seq![glfw_include(dir)]),
        cmake_model(
            "shader_editor"@,
            "shader_editor-21_04_04.tar.gz"@,
            seq![
                "-DIMGUI_INCLUDE_DIR="@ + dir + "/imgui-1.88/include"@,
                glfw_include(dir),
                "-DBOOST_ROOT="@ + dir + "/boost-1.80.0"@,
            ],
        ),
        cmake_model(
            "oiio-2.2.21.0"@,
            "oiio-2.2.21.0.tar.gz"@,
            seq![
                oiio_prefix_path(dir),
                "-DBOOST_ROOT="@ + dir + "/boost-1.80.0/"@,
                zlib_root(dir),
                "-DBUILD_TESTING=False"@,
                "-DBUILD_SHARED_LIBS=False"@,
                "-DLINKSTATIC=True"@,
                "-DUSE_PYTHON=False"@,
                "-DUSE_FREETYPE=False"@,
                "-DUSE_GIF=False"@,
                "-DOIIO_BUILD_TESTS=False"@,
                "-DOIIO_BUILD_TOOLS=False"@,
            ],
        ),
    ]
}

/// No two libraries of the catalog have the same name: the name of a library
/// tells its install directory from every other.
pub proof fn lemma_catalog_names_unique(dir: Seq<char>, toolset: VisualStudioToolsetVersion, i: int, j: int)
    requires
        0 <= i < j < catalog_model(dir, toolset).len(),
    ensures
        catalog_model(dir, toolset).len() == 13,
        catalog_model(dir, toolset)[i].name != catalog_model(dir, toolset)[j].name,
{
    reveal_strlit("zlib-1.2.13");
    reveal_strlit("libjpeg-turbo-2.1.5.1");
    reveal_strlit("libpng-1.6.39");
    reveal_strlit("libtiff-4.5.0");
    reveal_strlit("openexr-2.5.8");
    reveal_strlit("freeglut-3.2.2");
    reveal_strlit("glew-2.1.0");
    reveal_strlit("glfw-3.3.8");
    reveal_strlit("boost-1.80.0");
    reveal_strlit("oneTBB-2021.3.0");
    reveal_strlit("imgui-1.88");
    reveal_strlit("shader_editor");
    reveal_strlit("oiio-2.2.21.0");
    let c = catalog_model(dir, toolset);
    assert(c[0].name.len() == 11 && c[0].name[0] == 'z');
    assert(c[1].name.len() == 21 && c[1].name[0] == 'l');
    assert(c[2].name.len() == 13 && c[2].name[0] == 'l' && c[2].name[3] == 'p');
    assert(c[3].name.len() == 13 && c[3].name[0] == 'l' && c[3].name[3] == 't');
    assert(c[4].name.len() == 13 && c[4].name[0] == 'o' && c[4].name[1] == 'p');
    assert(c[5].name.len() == 14 && c[5].name[0] == 'f');
    assert(c[6].name.len() == 10 && c[6].name[0] == 'g' && c[6].name[2] == 'e');
    assert(c[7].name.len() == 10 && c[7].name[0] == 'g' && c[7].name[2] == 'f');
    assert(c[8].name.len() == 12 && c[8].name[0] == 'b');
    assert(c[9].name.len() == 15 && c[9].name[0] == 'o');
    assert(c[10].name.len() == 10 && c[10].name[0] == 'i');
    assert(c[11].name.len() == 13 && c[11].name[0] == 's');
    assert(c[12].name.len() == 13 && c[12].name[0] == 'o' && c[12].name[1] == 'i');
}

fn cmake_library(name: &'static str, file_name: &'static str, args: Vec<String>) -> (r: LibraryDetails)
    ensures
        r@ == cmake_model(name@, file_name@, texts(args@)),
{
    LibraryDetails {
        name,
        file_name,
        build_type: BuildType::CMake(CMakeDetails { cmake_local_path: None, extra_configure_args: args }),
    }
}

fn push_flag(list: &mut Vec<String>, flag: &str)
    ensures
        texts(final(list)@) == texts(old(list)@).push(flag@),
{
    push_text(list, String::from_str(flag));
}

fn push_zlib_root(list: &mut Vec<String>, dir: &str)
    ensures
        texts(final(list)@) == texts(old(list)@).push(zlib_root(dir@)),
{
    push_text(list, join3("-DZLIB_ROOT=", dir, "/zlib-1.2.13/"));
}

fn push_glfw_include(list: &mut Vec<String>, dir: &str)
    ensures
        texts(final(list)@) == texts(old(list)@).push(glfw_include(dir@)),
{
    push_text(list, join3("-DGLFW_INCLUDE_DIR=", dir, "/glfw-3.3.8/include"));
}

fn glew() -> (r: LibraryDetails)
    ensures
        r@ == catalog_model(Seq::empty(), VisualStudioToolsetVersion::V140)[6],
{
    let mut path: Vec<&'static str> = Vec::new();
    path.push("build");
    path.push("cmake");
    let args = empty_texts();
    let r = LibraryDetails {
        name: "glew-2.1.0",
        file_name: "glew-2.1.0.tgz",
        build_type: BuildType::CMake(CMakeDetails { cmake_local_path: Some(path), extra_configure_args: args }),
    };
    assert(crate::text::names(path@) =~= seq!["build"@, "cmake"@]);
    r
}

fn boost(dir: &str, toolset: &VisualStudioToolsetVersion) -> (r: LibraryDetails)
    ensures
        r@ == (LibraryModel {
            name: "boost-1.80.0"@,
            file_name: "boost_1_80_0.tar.gz"@,
            strategy: StrategyModel::Custom { steps: boost_steps(dir@, *toolset) },
        }),
{
    let mut first = empty_texts();
    push_flag(&mut first, "/c");
    push_flag(&mut first, "bootstrap.bat");
    let mut second = empty_texts();
    push_flag(&mut second, "install");
    push_text(&mut second, join3("--prefix=", dir, "/boost-1.80.0/"));
    push_flag(&mut second, toolset.boost_argument());
    push_flag(&mut second, "variant=release");
    push_flag(&mut second, "link=static");
    push_flag(&mut second, "threading=multi");
    push_flag(&mut second, "address-model=64");
    push_flag(&mut second, "runtime-link=shared");
    push_flag(&mut second, "--with-filesystem");
    push_flag(&mut second, "--with-regex");
    push_flag(&mut second, "--with-system");
    push_flag(&mut second, "--with-thread");
    push_flag(&mut second, "--with-date_time");
    push_flag(&mut second, "--with-chrono");
    push_flag(&mut second, "--with-atomic");
    assert(texts(first@) =~= seq!["/c"@, "bootstrap.bat"@]);
    assert(texts(second@) =~= boost_steps(dir@, *toolset)[1].args);
    let mut steps: Vec<CustomBuildStep> = Vec::new();
    steps.push(CustomBuildStep { name: "bootstrap", command: "cmd", args: first, in_current_dir: false });
    steps.push(CustomBuildStep { name: "b2_build", command: "b2.exe", args: second, in_current_dir: true });
    assert(step_models(steps@) =~= boost_steps(dir@, *toolset));
    LibraryDetails {
        name: "boost-1.80.0",
        file_name: "boost_1_80_0.tar.gz",
        build_type: BuildType::Custom(CustomBuildDetails { steps }),
    }
}

fn oiio(dir: &str) -> (r: LibraryDetails)
    ensures
        r@ == catalog_model(dir@, VisualStudioToolsetVersion::V140)[12],
{
    let mut prefix = String::from_str("-DCMAKE_PREFIX_PATH=");
    prefix.append(dir);
    prefix.append("/openexr-2.5.8;");
    prefix.append(dir);
    prefix.append("/libtiff-4.5.0;");
    prefix.append(dir);
    prefix.append("/libjpeg-turbo-2.1.5.1");
    let mut args = empty_texts();
    push_text(&mut args, prefix);
    push_text(&mut args, join3("-DBOOST_ROOT=", dir, "/boost-1.80.0/"));
    push_zlib_root(&mut args, dir);
    push_flag(&mut args, "-DBUILD_TESTING=False");
    push_flag(&mut args, "-DBUILD_SHARED_LIBS=False");
    push_flag(&mut args, "-DLINKSTATIC=True");
    push_flag(&mut args, "-DUSE_PYTHON=False");
    push_flag(&mut args, "-DUSE_FREETYPE=False");
    push_flag(&mut args, "-DUSE_GIF=False");
    push_flag(&mut args, "-DOIIO_BUILD_TESTS=False");
    push_flag(&mut args, "-DOIIO_BUILD_TOOLS=False");
    assert(texts(args@) =~= seq![
        oiio_prefix_path(dir@),
        "-DBOOST_ROOT="@ + dir@ + "/boost-1.80.0/"@,
        zlib_root(dir@),
        "-DBUILD_TESTING=False"@,
        "-DBUILD_SHARED_LIBS=False"@,
        "-DLINKSTATIC=True"@,
        "-DUSE_PYTHON=False"@,
        "-DUSE_FREETYPE=False"@,
        "-DUSE_GIF=False"@,
        "-DOIIO_BUILD_TESTS=False"@,
        "-DOIIO_BUILD_TOOLS=False"@,
    ]);
    cmake_library("oiio-2.2.21.0", "oiio-2.2.21.0.tar.gz", args)
}

fn shader_editor(dir: &str) -> (r: LibraryDetails)
    ensures
        r@ == catalog_model(dir@, VisualStudioToolsetVersion::V140)[11],
{
    let mut args = empty_texts();
    push_text(&mut args, join3("-DIMGUI_INCLUDE_DIR=", dir, "/imgui-1.88/include"));
    push_glfw_include(&mut args, dir);
    push_text(&mut args, join3("-DBOOST_ROOT=", dir, "/boost-1.80.0"));
    assert(texts(args@) =~= seq![
        "-DIMGUI_INCLUDE_DIR="@ + dir@ + "/imgui-1.88/include"@,
        glfw_include(dir@),
        "-DBOOST_ROOT="@ + dir@ + "/boost-1.80.0"@,
    ]);
    cmake_library("shader_editor", "shader_editor-21_04_04.tar.gz", args)
}

fn with_zlib(name: &'static str, file_name: &'static str, flag: &str, dir: &str) -> (r: LibraryDetails)
    ensures
        r@ == cmake_model(name@, file_name@, seq![flag@, zlib_root(dir@)]),
{
    let mut args = empty_texts();
    push_flag(&mut args, flag);
    push_zlib_root(&mut args, dir);
    assert(texts(args@) =~= seq![flag@, zlib_root(dir@)]);
    cmake_library(name, file_name, args)
}

fn one_tbb() -> (r: LibraryDetails)
    ensures
        r@ == catalog_model(Seq::empty(), VisualStudioToolsetVersion::V140)[9],
{
    let mut args = empty_texts();
    push_flag(&mut args, "-DBUILD_SHARED_LIBS=False");
    push_flag(&mut args, "-DTBB_TEST=False");
    push_flag(&mut args, "-DTBB_STRICT=False");
    push_flag(&mut args, "-DCMAKE_CXX_FLAGS=\"/D__TBB_SOURCE_DIRECTLY_INCLUDED\"");
    assert(texts(args@) =~= seq![
        "-DBUILD_SHARED_LIBS=False"@,
        "-DTBB_TEST=False"@,
        "-DTBB_STRICT=False"@,
        "-DCMAKE_CXX_FLAGS=\"/D__TBB_SOURCE_DIRECTLY_INCLUDED\""@,
    ]);
    cmake_library("oneTBB-2021.3.0", "oneTBB-2021.3.0-custom.tar.gz", args)
}

fn jpeg_turbo() -> (r: LibraryDetails)
    ensures
        r@ == catalog_model(Seq::empty(), VisualStudioToolsetVersion::V140)[1],
{
    let mut args = empty_texts();
    push_flag(&mut args, "-DWITH_CRT_DLL=True");
    push_flag(&mut args, "-DWITH_TURBOJPEG=False");
    push_flag(&mut args, "-DENABLE_SHARED=False");
    assert(texts(args@) =~= seq!["-DWITH_CRT_DLL=True"@, "-DWITH_TURBOJPEG=False"@, "-DENABLE_SHARED=False"@]);
    cmake_library("libjpeg-turbo-2.1.5.1", "libjpeg-turbo-2.1.5.1.tar.gz", args)
}

fn freeglut() -> (r: LibraryDetails)
    ensures
        r@ == catalog_model(Seq::empty(), VisualStudioToolsetVersion::V140)[5],
{
    let mut args = empty_texts();
    push_flag(&mut args, "-DFREEGLUT_BUILD_DEMOS=False");
    push_flag(&mut args, "-DFREEGLUT_BUILD_SHARED_LIBS=False");
    assert(texts(args@) =~= seq!["-DFREEGLUT_BUILD_DEMOS=False"@, "-DFREEGLUT_BUILD_SHARED_LIBS=False"@]);
    cmake_library("freeglut-3.2.2", "freeglut-3.2.2.tar.gz", args)
}

fn imgui(dir: &str) -> (r: LibraryDetails)
    ensures
        r@ == catalog_model(dir@, VisualStudioToolsetVersion::V140)[10],
{
    let mut args = empty_texts();
    push_glfw_include(&mut args, dir);
    assert(texts(args@) =~= seq![glfw_include(dir@)]);
    cmake_library("imgui-1.88", "imgui-1.88-custom.tar.gz", args)
}

/// Returns the libraries to build, in build order, for artifacts installed
/// under `artifact_dir`. Backslashes in `artifact_dir` are written as forward
/// slashes in the arguments that embed it.
pub fn get_build_list(artifact_dir: &str, toolset_version: &VisualStudioToolsetVersion) -> (r: Vec<LibraryDetails>)
    ensures
        library_models(r@) == catalog_model(forward_slashes(artifact_dir@), *toolset_version),
{
    let dir_string = normalize_separators(artifact_dir);
    let dir: &str = dir_string.as_str();
    let ghost d = forward_slashes(artifact_dir@);
    let mut list: Vec<LibraryDetails> = Vec::new();
    list.push(cmake_library("zlib-1.2.13", "zlib-1.2.13.tar.gz", empty_texts()));
    list.push(jpeg_turbo());
    list.push(with_zlib("libpng-1.6.39", "libpng-1.6.39.tar.gz", "-DPNG_SHARED=False", dir));
    list.push(with_zlib("libtiff-4.5.0", "tiff-4.5.0.tar.gz", "-DBUILD_SHARED_LIBS=False", dir));
    list.push(with_zlib("openexr-2.5.8", "openexr-2.5.8.tar.gz", "-DBUILD_SHARED_LIBS=False", dir));
    list.push(freeglut());
    list.push(glew());
    list.push(cmake_library("glfw-3.3.8", "glfw-3.3.8.zip", empty_texts()));
    list.push(boost(dir, toolset_version));
    list.push(one_tbb());
    list.push(imgui(dir));
    list.push(shader_editor(dir));
    list.push(oiio(dir));
    assert(library_models(list@) =~= catalog_model(d, *toolset_version));
    list
}

} // verus!
