//! The two files that every new project starts with.

use crate::text::{lemma_middle_occurs, occurs_in};
use vstd::prelude::*;
use vstd::string::*;

verus! {

/// The program that a new project's source file holds.
pub open spec fn source_text() -> Seq<char> {
    "#include <iostream>\n\nint main() {\n\tstd::cout << \"Hello, World!\" << std::endl;\n}"@
}

/// What the build descriptor says before the project's name.
pub open spec fn descriptor_head() -> Seq<char> {
    "cmake_minimum_required(VERSION 3.5)\n\nset(CMAKE_CXX_STANDARD 20)\nset(CMAKE_CXX_STANDARD_REQUIRED True)\nset(CMAKE_EXPORT_COMPILE_COMMANDS True)\n\nproject("@
}

/// What the build descriptor says after the project's name.
pub open spec fn descriptor_tail() -> Seq<char> {
    " VERSION 0.1)\n\nadd_executable(${PROJECT_NAME} src/main.cpp)"@
}

/// The build descriptor of the project called `name`.
pub open spec fn descriptor_text(name: Seq<char>) -> Seq<char> {
    descriptor_head() + name + descriptor_tail()
}

/// The build descriptor names its project.
pub proof fn lemma_descriptor_names_project(name: Seq<char>)
    ensures
        occurs_in(name, descriptor_text(name)),
{
    lemma_middle_occurs(descriptor_head(), name, descriptor_tail());
}

/// The contents of the source file.
pub fn source_file() -> (out: String)
    ensures
        out@ == source_text(),
{
    String::from_str(
        "#include <iostream>\n\nint main() {\n\tstd::cout << \"Hello, World!\" << std::endl;\n}",
    )
}

/// The contents of the build descriptor of the project called `name`.
pub fn descriptor_file(name: &str) -> (out: String)
    ensures
        out@ == descriptor_text(name@),
{
    let head = String::from_str(
        "cmake_minimum_required(VERSION 3.5)\n\nset(CMAKE_CXX_STANDARD 20)\nset(CMAKE_CXX_STANDARD_REQUIRED True)\nset(CMAKE_EXPORT_COMPILE_COMMANDS True)\n\nproject(",
    );
    head.concat(name).concat(" VERSION 0.1)\n\nadd_executable(${PROJECT_NAME} src/main.cpp)")
}

} // verus!
