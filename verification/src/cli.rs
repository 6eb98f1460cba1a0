//! The decisions behind the interactive project setup: how each menu
//! answer maps to a driver or a document type, and how a full set of
//! answers becomes a configuration. The prompting itself is plain
//! terminal I/O and lives with the caller; every answer arrives here as
//! an already-lowercased string.

use vstd::prelude::*;
use vstd::string::StringExecFns;

use crate::config::ProjectConfig;
use crate::{DocumentType, TexrsError};

verus! {

/// Which driver a menu answer selects: `x` and `l` pick the alternative
/// engines, `p` — and any unrecognised answer — falls back to the
/// default.
pub open spec fn spec_driver_for_choice(choice: Seq<char>) -> Seq<char> {
    if choice == "x"@ {
        "xelatex"@
    } else if choice == "l"@ {
        "lualatex"@
    } else {
        "pdflatex"@
    }
}

/// Whether a category answer names one of the three document categories.
pub open spec fn spec_is_category(category: Seq<char>) -> bool {
    category == "m"@ || category == "f"@ || category == "p"@
}

/// Which document type a category answer and a type answer select, or
/// `None` when either answer names no option.
pub open spec fn spec_doctype_for_choice(category: Seq<char>, choice: Seq<char>) -> Option<
    DocumentType,
> {
    if category == "m"@ {
        if choice == "b"@ {
            Some(DocumentType::Book)
        } else if choice == "m"@ {
            Some(DocumentType::MathArticle)
        } else if choice == "n"@ {
            Some(DocumentType::Notes)
        } else if choice == "p"@ {
            Some(DocumentType::Presentation)
        } else {
            None
        }
    } else if category == "f"@ {
        if choice == "a"@ {
            Some(DocumentType::Article)
        } else if choice == "t"@ {
            Some(DocumentType::Thesis)
        } else {
            None
        }
    } else if category == "p"@ {
        if choice == "l"@ {
            Some(DocumentType::Letter)
        } else if choice == "r"@ {
            Some(DocumentType::Recipe)
        } else {
            None
        }
    } else {
        None
    }
}

fn str_eq(a: &str, b: &str) -> (eq: bool)
    ensures
        eq == (a@ == b@),
{
    a.to_owned() == b.to_owned()
}

/// The driver a menu answer selects.
pub fn driver_for_choice(choice: &str) -> (driver: String)
    ensures
        driver@ == spec_driver_for_choice(choice@),
{
    if str_eq(choice, "x") {
        "xelatex".to_owned()
    } else if str_eq(choice, "l") {
        "lualatex".to_owned()
    } else {
        "pdflatex".to_owned()
    }
}

/// The document type a category answer and a type answer select. An
/// answer that names no option is rejected with `InvalidChoice` carrying
/// the offending answer: the category when the category itself was bad,
/// the type answer otherwise.
pub fn doctype_for_choice(category: &str, choice: &str) -> (doctype: Result<
    DocumentType,
    TexrsError,
>)
    ensures
        match spec_doctype_for_choice(category@, choice@) {
            Some(d) => doctype matches Ok(selected) && selected == d,
            None => doctype matches Err(TexrsError::InvalidChoice(bad)) && bad@ == (
            if spec_is_category(category@) {
                choice@
            } else {
                category@
            }),
        },
{
    if str_eq(category, "m") {
        if str_eq(choice, "b") {
            Ok(DocumentType::Book)
        } else if str_eq(choice, "m") {
            Ok(DocumentType::MathArticle)
        } else if str_eq(choice, "n") {
            Ok(DocumentType::Notes)
        } else if str_eq(choice, "p") {
            Ok(DocumentType::Presentation)
        } else {
            Err(TexrsError::InvalidChoice(choice.to_owned()))
        }
    } else if str_eq(category, "f") {
        if str_eq(choice, "a") {
            Ok(DocumentType::Article)
        } else if str_eq(choice, "t") {
            Ok(DocumentType::Thesis)
        } else {
            Err(TexrsError::InvalidChoice(choice.to_owned()))
        }
    } else if str_eq(category, "p") {
        if str_eq(choice, "l") {
            Ok(DocumentType::Letter)
        } else if str_eq(choice, "r") {
            Ok(DocumentType::Recipe)
        } else {
            Err(TexrsError::InvalidChoice(choice.to_owned()))
        }
    } else {
        Err(TexrsError::InvalidChoice(category.to_owned()))
    }
}

/// Assemble a configuration from one full round of menu answers: the
/// project name, the driver answer, the category and type answers, and
/// the two feature flags. Fails exactly when the category or type answer
/// names no option, with the same `InvalidChoice` the type selection
/// reports.
pub fn config_from_choices(
    name: &str,
    driver_choice: &str,
    category_choice: &str,
    doctype_choice: &str,
    citations: bool,
    graphics: bool,
) -> (config: Result<ProjectConfig, TexrsError>)
    ensures
        match spec_doctype_for_choice(category_choice@, doctype_choice@) {
            Some(d) => config matches Ok(c) && c@.name == name@ && c@.driver
                == spec_driver_for_choice(driver_choice@) && c@.arguments is None && c@.citations
                == citations && c@.graphics == graphics && c@.doctype == d,
            None => config matches Err(TexrsError::InvalidChoice(bad)) && bad@ == (
            if spec_is_category(category_choice@) {
                doctype_choice@
            } else {
                category_choice@
            }),
        },
{
    let mut config = ProjectConfig::new();
    config.set_name(name);
    let driver = driver_for_choice(driver_choice);
    config.set_driver(driver.as_str());
    match doctype_for_choice(category_choice, doctype_choice) {
        Ok(doctype) => config.set_doctype(doctype),
        Err(err) => {
            return Err(err);
        },
    }
    config.set_citations(citations);
    config.set_graphics(graphics);
    Ok(config)
}

} // verus!
