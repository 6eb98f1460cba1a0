//! The decisions behind scaffolding a new project: which source template
//! each document type starts from, which directories the layout needs,
//! and where the generated files go. Writing them to disk is plain file
//! I/O and lives with the caller.

use vstd::prelude::*;
use vstd::string::StringExecFns;

use crate::config::{ConfigView, ProjectConfig};
use crate::DocumentType;

verus! {

/// The source templates a project can start from. Several document
/// types share the article template; the rest have one of their own.
#[derive(Debug, Clone, Copy, PartialEq, Eq, Structural)]
pub enum TemplateKind {
    Article,
    Book,
    Notes,
    Letter,
    Recipe,
}

/// Which template a document type starts from: a single lookup, not a
/// dispatch — theses, mathematical articles and presentations all share
/// the article template.
pub open spec fn spec_template_for(doctype: DocumentType) -> TemplateKind {
    match doctype {
        DocumentType::Book => TemplateKind::Book,
        DocumentType::Notes => TemplateKind::Notes,
        DocumentType::Letter => TemplateKind::Letter,
        DocumentType::Recipe => TemplateKind::Recipe,
        _ => TemplateKind::Article,
    }
}

pub fn template_for(doctype: DocumentType) -> (template: TemplateKind)
    ensures
        template == spec_template_for(doctype),
{
    match doctype {
        DocumentType::Book => TemplateKind::Book,
        DocumentType::Notes => TemplateKind::Notes,
        DocumentType::Letter => TemplateKind::Letter,
        DocumentType::Recipe => TemplateKind::Recipe,
        _ => TemplateKind::Article,
    }
}

/// The driver a freshly scaffolded project of each document type is
/// configured with.
pub open spec fn spec_default_driver(doctype: DocumentType) -> Seq<char> {
    match doctype {
        DocumentType::Article => "pdflatex"@,
        DocumentType::Notes => "pdflatex"@,
        _ => "xelatex"@,
    }
}

/// Whether a freshly scaffolded project of each document type processes
/// citations.
pub open spec fn spec_default_citations(doctype: DocumentType) -> bool {
    match doctype {
        DocumentType::Notes => false,
        DocumentType::Letter => false,
        DocumentType::Recipe => false,
        _ => true,
    }
}

/// Whether a freshly scaffolded project of each document type includes
/// graphics.
pub open spec fn spec_default_graphics(doctype: DocumentType) -> bool {
    doctype != DocumentType::Notes
}

/// The configuration a new project of the given name and document type
/// starts with: the type's default driver and feature flags, and no
/// extra arguments.
pub fn default_config_for(name: &str, doctype: DocumentType) -> (config: ProjectConfig)
    ensures
        config@.name == name@,
        config@.driver == spec_default_driver(doctype),
        config@.arguments is None,
        config@.citations == spec_default_citations(doctype),
        config@.graphics == spec_default_graphics(doctype),
        config@.doctype == doctype,
{
    let mut config = ProjectConfig::new();
    config.set_name(name);
    match doctype {
        DocumentType::Article => config.set_driver("pdflatex"),
        DocumentType::Notes => config.set_driver("pdflatex"),
        _ => config.set_driver("xelatex"),
    }
    match doctype {
        DocumentType::Notes => config.set_citations(false),
        DocumentType::Letter => config.set_citations(false),
        DocumentType::Recipe => config.set_citations(false),
        _ => config.set_citations(true),
    }
    if matches!(doctype, DocumentType::Notes) {
        config.set_graphics(false);
    } else {
        config.set_graphics(true);
    }
    config.set_doctype(doctype);
    config
}

/// The directories a project's layout needs, in the order they are
/// created: the root, a graphics directory only when graphics are in
/// use, a bibliography directory only when citations are, and the source
/// directory.
pub open spec fn spec_scaffold_directories(config: ConfigView) -> Seq<Seq<char>> {
    seq![config.name] + (if config.graphics {
        seq![config.name + "/graphics"@]
    } else {
        Seq::<Seq<char>>::empty()
    }) + (if config.citations {
        seq![config.name + "/bib"@]
    } else {
        Seq::<Seq<char>>::empty()
    }) + seq![config.name + "/tex"@]
}

pub fn scaffold_directories(config: &ProjectConfig) -> (dirs: Vec<String>)
    ensures
        dirs.deep_view() == spec_scaffold_directories(config@),
{
    let mut dirs: Vec<String> = Vec::new();
    dirs.push(config.get_name());
    if config.get_graphics() {
        dirs.push(config.get_name().concat("/graphics"));
    }
    if config.get_citations() {
        dirs.push(config.get_name().concat("/bib"));
    }
    dirs.push(config.get_name().concat("/tex"));
    proof {
        assert(dirs.deep_view() =~= spec_scaffold_directories(config@));
    }
    dirs
}

/// Where the project's document source lives, relative to the directory
/// the project was scaffolded in.
pub fn tex_source_path(config: &ProjectConfig) -> (path: String)
    ensures
        path@ == config@.name + "/tex/"@ + config@.name + ".tex"@,
{
    config.get_name().concat("/tex/").concat(config.get_name().as_str()).concat(".tex")
}

/// Where the project's bibliography file lives.
pub fn bibliography_path(config: &ProjectConfig) -> (path: String)
    ensures
        path@ == config@.name + "/bib/refs.bib"@,
{
    config.get_name().concat("/bib/refs.bib")
}

/// Where the project's configuration file is written at scaffold time.
pub fn config_output_path(config: &ProjectConfig) -> (path: String)
    ensures
        path@ == config@.name + "/config.toml"@,
{
    config.get_name().concat("/config.toml")
}

/// Where a build invocation looks for the configuration file, given the
/// already-trimmed project path argument: the working directory itself
/// when the argument is `.`, the named directory otherwise.
pub fn config_file_location(path: &str) -> (location: String)
    ensures
        location@ == (if path@ == "."@ {
            "config.toml"@
        } else {
            path@ + "/config.toml"@
        }),
{
    let dot = ".".to_owned();
    if path.to_owned() == dot {
        "config.toml".to_owned()
    } else {
        path.to_owned().concat("/config.toml")
    }
}

} // verus!
