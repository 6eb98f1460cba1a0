use texrs::cli::{config_from_choices, doctype_for_choice, driver_for_choice};
use texrs::config::ProjectConfig;
use texrs::scaffold::{
    bibliography_path, config_file_location, config_output_path, default_config_for,
    scaffold_directories, template_for, tex_source_path, TemplateKind,
};
use texrs::{DocumentType, TexrsError};

#[test]
fn new_config_has_documented_defaults() {
    let config = ProjectConfig::new();
    assert_eq!(config.get_name(), "document1");
    assert_eq!(config.get_driver(), "pdflatex");
    assert_eq!(config.get_arguments(), None);
    assert!(config.get_citations());
    assert!(config.get_graphics());
    assert_eq!(config.get_doctype(), DocumentType::Letter);
}

#[test]
fn default_impl_matches_new() {
    let config = ProjectConfig::default();
    assert_eq!(config.get_name(), "document1");
    assert_eq!(config.get_driver(), "pdflatex");
    assert_eq!(config.get_doctype(), DocumentType::Letter);
}

#[test]
fn setters_update_their_field_and_nothing_else() {
    let mut config = ProjectConfig::new();
    config.set_name("thesis");
    assert_eq!(config.get_name(), "thesis");
    assert_eq!(config.get_driver(), "pdflatex");
    config.set_driver("lualatex");
    assert_eq!(config.get_driver(), "lualatex");
    assert_eq!(config.get_name(), "thesis");
    config.set_citations(false);
    assert!(!config.get_citations());
    assert!(config.get_graphics());
    config.set_graphics(false);
    assert!(!config.get_graphics());
    config.set_doctype(DocumentType::Thesis);
    assert_eq!(config.get_doctype(), DocumentType::Thesis);
}

#[test]
fn arguments_round_trip() {
    let mut config = ProjectConfig::new();
    let arguments = vec!["-shell-escape".to_string(), "-halt-on-error".to_string()];
    config.set_arguments(Some(arguments.clone()));
    assert_eq!(config.get_arguments(), Some(arguments));
    config.set_arguments(None);
    assert_eq!(config.get_arguments(), None);
}

#[test]
fn driver_choices_map_to_engines() {
    assert_eq!(driver_for_choice("p"), "pdflatex");
    assert_eq!(driver_for_choice("x"), "xelatex");
    assert_eq!(driver_for_choice("l"), "lualatex");
    assert_eq!(driver_for_choice("q"), "pdflatex");
}

#[test]
fn doctype_choices_map_to_types() {
    assert!(matches!(doctype_for_choice("m", "n"), Ok(DocumentType::Notes)));
    assert!(matches!(doctype_for_choice("m", "b"), Ok(DocumentType::Book)));
    assert!(matches!(doctype_for_choice("m", "m"), Ok(DocumentType::MathArticle)));
    assert!(matches!(doctype_for_choice("m", "p"), Ok(DocumentType::Presentation)));
    assert!(matches!(doctype_for_choice("f", "a"), Ok(DocumentType::Article)));
    assert!(matches!(doctype_for_choice("f", "t"), Ok(DocumentType::Thesis)));
    assert!(matches!(doctype_for_choice("p", "l"), Ok(DocumentType::Letter)));
    assert!(matches!(doctype_for_choice("p", "r"), Ok(DocumentType::Recipe)));
}

#[test]
fn bad_category_is_rejected_with_its_own_text() {
    match doctype_for_choice("z", "n") {
        Err(TexrsError::InvalidChoice(bad)) => assert_eq!(bad, "z"),
        _ => panic!("an unknown category must be rejected"),
    }
}

#[test]
fn bad_type_choice_is_rejected_with_its_own_text() {
    match doctype_for_choice("f", "q") {
        Err(TexrsError::InvalidChoice(bad)) => assert_eq!(bad, "q"),
        _ => panic!("an unknown type choice must be rejected"),
    }
}

#[test]
fn menu_answers_assemble_a_full_config() {
    let config = config_from_choices("paper", "x", "f", "a", true, false)
        .unwrap_or_else(|_| panic!("valid answers must yield a config"));
    assert_eq!(config.get_name(), "paper");
    assert_eq!(config.get_driver(), "xelatex");
    assert_eq!(config.get_arguments(), None);
    assert!(config.get_citations());
    assert!(!config.get_graphics());
    assert_eq!(config.get_doctype(), DocumentType::Article);
}

#[test]
fn menu_answers_with_bad_type_fail() {
    match config_from_choices("paper", "p", "m", "z", true, true) {
        Err(TexrsError::InvalidChoice(bad)) => assert_eq!(bad, "z"),
        _ => panic!("a bad type answer must fail the whole menu"),
    }
}

#[test]
fn templates_follow_the_document_type() {
    assert_eq!(template_for(DocumentType::Article), TemplateKind::Article);
    assert_eq!(template_for(DocumentType::Thesis), TemplateKind::Article);
    assert_eq!(template_for(DocumentType::MathArticle), TemplateKind::Article);
    assert_eq!(template_for(DocumentType::Presentation), TemplateKind::Article);
    assert_eq!(template_for(DocumentType::Book), TemplateKind::Book);
    assert_eq!(template_for(DocumentType::Notes), TemplateKind::Notes);
    assert_eq!(template_for(DocumentType::Letter), TemplateKind::Letter);
    assert_eq!(template_for(DocumentType::Recipe), TemplateKind::Recipe);
}

#[test]
fn scaffold_defaults_follow_the_document_type() {
    let article = default_config_for("a", DocumentType::Article);
    assert_eq!(article.get_driver(), "pdflatex");
    assert!(article.get_citations());
    assert!(article.get_graphics());

    let book = default_config_for("b", DocumentType::Book);
    assert_eq!(book.get_driver(), "xelatex");
    assert!(book.get_citations());
    assert!(book.get_graphics());

    let notes = default_config_for("n", DocumentType::Notes);
    assert_eq!(notes.get_driver(), "pdflatex");
    assert!(!notes.get_citations());
    assert!(!notes.get_graphics());

    let letter = default_config_for("l", DocumentType::Letter);
    assert_eq!(letter.get_driver(), "xelatex");
    assert!(!letter.get_citations());
    assert!(letter.get_graphics());

    let recipe = default_config_for("r", DocumentType::Recipe);
    assert_eq!(recipe.get_driver(), "xelatex");
    assert!(!recipe.get_citations());
    assert!(recipe.get_graphics());

    let thesis = default_config_for("t", DocumentType::Thesis);
    assert_eq!(thesis.get_driver(), "xelatex");
    assert_eq!(thesis.get_doctype(), DocumentType::Thesis);
}

#[test]
fn scaffold_directories_follow_the_flags() {
    let mut config = ProjectConfig::new();
    config.set_name("paper");
    config.set_citations(true);
    config.set_graphics(true);
    assert_eq!(
        scaffold_directories(&config),
        vec!["paper", "paper/graphics", "paper/bib", "paper/tex"]
    );
    config.set_graphics(false);
    assert_eq!(scaffold_directories(&config), vec!["paper", "paper/bib", "paper/tex"]);
    config.set_citations(false);
    assert_eq!(scaffold_directories(&config), vec!["paper", "paper/tex"]);
}

#[test]
fn generated_paths_are_rooted_at_the_project_name() {
    let mut config = ProjectConfig::new();
    config.set_name("paper");
    assert_eq!(tex_source_path(&config), "paper/tex/paper.tex");
    assert_eq!(bibliography_path(&config), "paper/bib/refs.bib");
    assert_eq!(config_output_path(&config), "paper/config.toml");
}

#[test]
fn config_location_honours_the_current_dir_shorthand() {
    assert_eq!(config_file_location("."), "config.toml");
    assert_eq!(config_file_location("paper"), "paper/config.toml");
}

#[test]
fn error_messages_name_the_problem() {
    assert_eq!(
        TexrsError::InvalidChoice("q".to_string()).message(),
        "Invalid input: `q` not permitted."
    );
    assert_eq!(
        TexrsError::ConfigMissing.message(),
        "No configuration file was found for this project."
    );
    assert_eq!(
        TexrsError::ConfigMalformed("missing field `driver`".to_string()).message(),
        "The configuration file could not be read: missing field `driver`"
    );
    assert_eq!(
        TexrsError::ToolLaunchFailed("biber".to_string()).message(),
        "The tool `biber` could not be launched."
    );
}
