//! The project configuration: what a build invocation consumes, resolved
//! once per invocation and immutable while the pipeline runs.

use vstd::prelude::*;

use crate::DocumentType;

verus! {

/// Ghost image of a [`ProjectConfig`]: each field as a mathematical value.
pub ghost struct ConfigView {
    pub name: Seq<char>,
    pub driver: Seq<char>,
    pub arguments: Option<Seq<Seq<char>>>,
    pub citations: bool,
    pub graphics: bool,
    pub doctype: DocumentType,
}

/// The ProjectConfig struct stores six pieces of information about the
/// project: its name (which is also the root directory and the base
/// filename of generated artifacts), the compiler driver to invoke,
/// whatever extra arguments are passed, whether citations or graphics are
/// used, and what type of document it is.
#[derive(Clone)]
pub struct ProjectConfig {
    name: String,
    driver: String,
    arguments: Option<Vec<String>>,
    citations: bool,
    graphics: bool,
    doctype: DocumentType,
}

impl View for ProjectConfig {
    type V = ConfigView;

    closed spec fn view(&self) -> ConfigView {
        ConfigView {
            name: self.name@,
            driver: self.driver@,
            arguments: self.arguments.deep_view(),
            citations: self.citations,
            graphics: self.graphics,
            doctype: self.doctype,
        }
    }
}

impl ProjectConfig {
    pub fn get_name(&self) -> (name: String)
        ensures
            name@ == self@.name,
    {
        self.name.clone()
    }

    pub fn get_driver(&self) -> (driver: String)
        ensures
            driver@ == self@.driver,
    {
        self.driver.clone()
    }

    pub fn get_arguments(&self) -> (arguments: Option<Vec<String>>)
        ensures
            arguments.deep_view() == self@.arguments,
    {
        match &self.arguments {
            None => None,
            Some(v) => {
                let mut out: Vec<String> = Vec::new();
                let mut i: usize = 0;
                while i < v.len()
                    invariant
                        i <= v.len(),
                        out@.len() == i as int,
                        forall|j: int| 0 <= j < i ==> out@[j] == v@[j],
                    decreases v.len() - i,
                {
                    out.push(v[i].clone());
                    i += 1;
                }
                proof {
                    assert(out.deep_view() =~= v.deep_view());
                }
                Some(out)
            },
        }
    }

    pub fn get_citations(&self) -> (citations: bool)
        ensures
            citations == self@.citations,
    {
        self.citations
    }

    pub fn get_graphics(&self) -> (graphics: bool)
        ensures
            graphics == self@.graphics,
    {
        self.graphics
    }

    pub fn get_doctype(&self) -> (doctype: DocumentType)
        ensures
            doctype == self@.doctype,
    {
        self.doctype
    }

    pub fn set_name(&mut self, name: &str)
        ensures
            final(self)@ == (ConfigView { name: name@, ..old(self)@ }),
    {
        self.name = name.to_owned();
    }

    pub fn set_driver(&mut self, driver: &str)
        ensures
            final(self)@ == (ConfigView { driver: driver@, ..old(self)@ }),
    {
        self.driver = driver.to_owned();
    }

    pub fn set_arguments(&mut self, arguments: Option<Vec<String>>)
        ensures
            final(self)@ == (ConfigView { arguments: arguments.deep_view(), ..old(self)@ }),
    {
        self.arguments = arguments;
    }

    pub fn set_citations(&mut self, citations: bool)
        ensures
            final(self)@ == (ConfigView { citations: citations, ..old(self)@ }),
    {
        self.citations = citations;
    }

    pub fn set_graphics(&mut self, graphics: bool)
        ensures
            final(self)@ == (ConfigView { graphics: graphics, ..old(self)@ }),
    {
        self.graphics = graphics;
    }

    pub fn set_doctype(&mut self, doctype: DocumentType)
        ensures
            final(self)@ == (ConfigView { doctype: doctype, ..old(self)@ }),
    {
        self.doctype = doctype;
    }

    /// The configuration a fresh project starts from before anything has
    /// been chosen: a placeholder name, the most common driver, both
    /// feature flags on, and the letter category.
    pub fn new() -> (config: ProjectConfig)
        ensures
            config@.name == "document1"@,
            config@.driver == "pdflatex"@,
            config@.arguments is None,
            config@.citations == true,
            config@.graphics == true,
            config@.doctype == DocumentType::Letter,
    {
        ProjectConfig {
            name: "document1".to_owned(),
            driver: "pdflatex".to_owned(),
            arguments: None,
            citations: true,
            graphics: true,
            doctype: DocumentType::Letter,
        }
    }
}

impl Default for ProjectConfig {
    fn default() -> (config: Self)
        ensures
            config@.name == "document1"@,
            config@.driver == "pdflatex"@,
            config@.arguments is None,
            config@.citations == true,
            config@.graphics == true,
            config@.doctype == DocumentType::Letter,
    {
        Self::new()
    }
}

} // verus!
