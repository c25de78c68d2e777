//! Loader metadata records: the quilt loader's published versions and
//! profiles, the simple library record a maven coordinate resolves to, and
//! the marker type of an instance whose loader is not yet chosen.

use vstd::prelude::*;

verus! {

/// Marker for an instance builder field that has not been set yet.
#[derive(Debug, PartialEq, Eq)]
pub struct Undefined;

impl Default for Undefined {
    fn default() -> (r: Self)
        ensures
            r == Undefined,
    {
        Undefined
    }
}

/// A library reduced to the path of its jar.
#[derive(Debug, PartialEq, Eq)]
pub struct SimpleLib {
    pub jar: String,
}

impl Clone for SimpleLib {
    fn clone(&self) -> (r: Self)
        ensures
            r == *self,
    {
        SimpleLib { jar: self.jar.clone() }
    }
}

/// One published version of the quilt loader.
#[derive(Debug, PartialEq, Eq)]
pub struct QuiltVersion {
    pub separator: String,
    pub build: i32,
    pub maven: String,
    pub version: String,
}

impl Clone for QuiltVersion {
    fn clone(&self) -> (r: Self)
        ensures
            r == *self,
    {
        QuiltVersion {
            separator: self.separator.clone(),
            build: self.build,
            maven: self.maven.clone(),
            version: self.version.clone(),
        }
    }
}

/// The game arguments a quilt profile passes through.
#[derive(Debug, PartialEq, Eq)]
pub struct QuiltArguments {
    pub game: Vec<String>,
}

/// One library a quilt profile depends on, as a maven coordinate and
/// repository URL.
#[derive(Debug, PartialEq, Eq)]
pub struct QuiltLibrary {
    pub name: String,
    pub url: String,
}

impl Clone for QuiltLibrary {
    fn clone(&self) -> (r: Self)
        ensures
            r == *self,
    {
        QuiltLibrary { name: self.name.clone(), url: self.url.clone() }
    }
}

/// A quilt launch profile: what to inherit from, the main class to start,
/// the arguments and libraries to launch with.
#[derive(Debug, PartialEq, Eq)]
pub struct QuiltProfile {
    pub id: String,
    pub inherits_from: String,
    pub profile_type: String,
    pub main_class: String,
    pub arguments: QuiltArguments,
    pub libraries: Vec<QuiltLibrary>,
    pub release_time: String,
    pub time: String,
}

impl QuiltProfile {
    pub fn get_main_class(&self) -> (r: String)
        ensures
            r == self.main_class,
    {
        self.main_class.clone()
    }
}

} // verus!
