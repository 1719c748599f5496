//! The settings that the service is started with.

use crate::text::append_strings;
use vstd::prelude::*;
use vstd::string::*;

verus! {

/// Where notes and downloads are kept, where files are searched for, and
/// the port to listen on. Set once at startup and only read afterwards.
#[derive(Debug, PartialEq, Eq)]
pub struct Configuration {
    pub notes_dir: String,
    pub downloads_dir: String,
    pub search_dirs: Vec<String>,
    pub port: usize,
}

/// A [`Configuration`] as plain values.
pub struct ConfigurationView {
    pub notes_dir: Seq<char>,
    pub downloads_dir: Seq<char>,
    pub search_dirs: Seq<Seq<char>>,
    pub port: nat,
}

impl View for Configuration {
    type V = ConfigurationView;

    open spec fn view(&self) -> ConfigurationView {
        ConfigurationView {
            notes_dir: self.notes_dir@,
            downloads_dir: self.downloads_dir@,
            search_dirs: self.search_dirs.deep_view(),
            port: self.port as nat,
        }
    }
}

/// Copies a list of strings.
pub fn clone_strings(list: &Vec<String>) -> (r: Vec<String>)
    ensures
        r.deep_view() == list.deep_view(),
{
    let mut out: Vec<String> = Vec::new();
    assert(out.deep_view() =~= Seq::<Seq<char>>::empty());
    append_strings(&mut out, list);
    assert(out.deep_view() =~= list.deep_view());
    out
}

impl Clone for Configuration {
    /// A copy that holds the same settings.
    fn clone(&self) -> (r: Self)
        ensures
            r@ == self@,
    {
        Configuration {
            notes_dir: self.notes_dir.clone(),
            downloads_dir: self.downloads_dir.clone(),
            search_dirs: clone_strings(&self.search_dirs),
            port: self.port,
        }
    }
}

} // verus!
