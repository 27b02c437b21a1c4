use create_godotrs::memfs::Fs;
use create_godotrs::CreateError;
use create_godotrs::ProjectConfig;
use create_godotrs::Template;

fn fresh_config(name: &str, base: &str) -> ProjectConfig {
    ProjectConfig::new(name.to_string()).with_base_path(base.to_string())
}

#[test]
fn test_create_project_success() {
    let mut fs = Fs::new();
    let config = fresh_config("testproject", "/base");

    let result = create_godotrs::create_project(&config, &mut fs);
    assert!(result.is_ok());

    // Verify directory structure
    let project_path = config.project_path();
    assert!(fs.exists_at(&project_path));
    assert!(fs.dir_exists(&format!("{}/godot", project_path)));
    assert!(fs.dir_exists(&format!("{}/rust", project_path)));
    assert!(fs.dir_exists(&format!("{}/rust/src", project_path)));

    // Verify template files
    assert!(fs.read_file(&format!("{}/.gitignore", project_path)).is_some());
    assert!(fs.read_file(&format!("{}/godot/.gitignore", project_path)).is_some());
    assert!(fs.read_file(&format!("{}/godot/.gdextension", project_path)).is_some());
    assert!(fs.read_file(&format!("{}/godot/project.godot", project_path)).is_some());
    assert!(fs.read_file(&format!("{}/rust/.gitignore", project_path)).is_some());
    assert!(fs.read_file(&format!("{}/rust/Cargo.toml", project_path)).is_some());
    assert!(fs.read_file(&format!("{}/rust/src/lib.rs", project_path)).is_some());

    // Verify content of project.godot
    let godot_content = fs.read_file(&format!("{}/godot/project.godot", project_path)).unwrap();
    assert!(godot_content.contains("config/name=\"testproject-godot\""));

    // Verify content of lib.rs
    let lib_rs_content = fs.read_file(&format!("{}/rust/src/lib.rs", project_path)).unwrap();
    assert!(lib_rs_content.contains("use godot::prelude::*"));
    assert!(lib_rs_content.contains("struct MyExtension"));
    assert!(lib_rs_content.contains("#[gdextension]"));
    assert!(lib_rs_content.contains("unsafe impl ExtensionLibrary for MyExtension {}"));

    // Verify content of Cargo.toml
    let cargo_content = fs.read_file(&format!("{}/rust/Cargo.toml", project_path)).unwrap();
    assert!(cargo_content.contains("crate-type = [\"cdylib\"]"));
    assert!(cargo_content.contains("godot = { git = \"https://github.com/godot-rust/gdext\" }"));
}

#[test]
fn test_create_project_already_exists() {
    let mut fs = Fs::new();
    let config = fresh_config("testproject", "/base");

    // Create project first time
    create_godotrs::create_project(&config, &mut fs).unwrap();

    // Try to create again
    let result = create_godotrs::create_project(&config, &mut fs);
    assert!(result.is_err());
    match result {
        Err(CreateError::ProjectAlreadyExists(_)) => {}
        _ => panic!("Expected ProjectAlreadyExists error"),
    }
}

#[test]
fn test_project_config_project_path() {
    let config = ProjectConfig::new("myproject".to_string())
        .with_base_path("/test/path".to_string());

    assert_eq!(config.project_path(), "/test/path/myproject".to_string());
}

#[test]
fn test_project_path_is_pure_and_unnormalized() {
    let config = fresh_config("my-game2", "/some//odd/../base");
    let first = config.project_path();
    let second = config.project_path();
    assert_eq!(first, second);
    assert_eq!(first, "/some//odd/../base/my-game2".to_string());
}

#[test]
fn test_new_defaults_to_dot_base_and_basic_template() {
    let config = ProjectConfig::new("thing".to_string());
    assert_eq!(config.base_path, ".".to_string());
    assert_eq!(config.template, Template::Basic);
    assert_eq!(config.project_path(), "./thing".to_string());
}

#[test]
fn test_descriptor_content_exact_with_hyphens_and_digits() {
    let mut fs = Fs::new();
    let config = fresh_config("my-game2", "/base");
    create_godotrs::create_project(&config, &mut fs).unwrap();
    let descriptor = fs
        .read_file(&"/base/my-game2/godot/project.godot".to_string())
        .unwrap();
    assert_eq!(descriptor, "[application]\nconfig/name=\"my-game2-godot\"\n".to_string());
}

#[test]
fn test_already_exists_leaves_first_tree_untouched() {
    let mut fs = Fs::new();
    let config = fresh_config("proj", "/base");
    create_godotrs::create_project(&config, &mut fs).unwrap();

    let result = create_godotrs::create_project(&config, &mut fs);
    match result {
        Err(CreateError::ProjectAlreadyExists(path)) => {
            assert_eq!(path, "/base/proj".to_string());
        }
        _ => panic!("Expected ProjectAlreadyExists error"),
    }

    // The tree from the first call still stands, with its contents.
    assert!(fs.dir_exists(&"/base/proj/rust/src".to_string()));
    let descriptor = fs.read_file(&"/base/proj/godot/project.godot".to_string()).unwrap();
    assert_eq!(descriptor, "[application]\nconfig/name=\"proj-godot\"\n".to_string());
}

#[test]
fn test_proto_template_creates_genre_dirs() {
    let mut fs = Fs::new();
    let config = fresh_config("game", "/base").with_template(Template::Proto);
    create_godotrs::create_project(&config, &mut fs).unwrap();

    let genre_dirs = [
        "/base/game/godot/entity",
        "/base/game/godot/player",
        "/base/game/godot/ui",
        "/base/game/godot/pipeline/aseprite/scripts",
        "/base/game/godot/pipeline/aseprite/src",
        "/base/game/godot/pipeline/aseprite/wizard",
        "/base/game/godot/pipeline/ldtk",
        "/base/game/godot/addons/AsepriteWizard",
        "/base/game/godot/addons/ldtk-importer",
    ];
    for dir in genre_dirs {
        assert!(fs.dir_exists(&dir.to_string()), "missing {}", dir);
    }
    // The extension manifest's name depends on the variant.
    assert!(fs.read_file(&"/base/game/godot/proto.gdextension".to_string()).is_some());
    assert!(fs.read_file(&"/base/game/godot/.gdextension".to_string()).is_none());
}

#[test]
fn test_basic_template_creates_no_genre_dirs() {
    let mut fs = Fs::new();
    let config = fresh_config("game", "/base");
    create_godotrs::create_project(&config, &mut fs).unwrap();

    let genre_dirs = [
        "/base/game/godot/entity",
        "/base/game/godot/player",
        "/base/game/godot/ui",
        "/base/game/godot/pipeline/aseprite/scripts",
        "/base/game/godot/pipeline/aseprite/src",
        "/base/game/godot/pipeline/aseprite/wizard",
        "/base/game/godot/pipeline/ldtk",
        "/base/game/godot/addons/AsepriteWizard",
        "/base/game/godot/addons/ldtk-importer",
    ];
    for dir in genre_dirs {
        assert!(!fs.dir_exists(&dir.to_string()), "unexpected {}", dir);
    }
    assert!(fs.read_file(&"/base/game/godot/.gdextension".to_string()).is_some());
    assert!(fs.read_file(&"/base/game/godot/proto.gdextension".to_string()).is_none());
}

#[test]
fn test_io_failure_during_file_writes_rolls_back() {
    let mut fs = Fs::new();
    // A tree outside the project path must survive the rollback.
    let other = fresh_config("other", "/elsewhere");
    create_godotrs::create_project(&other, &mut fs).unwrap();
    let config = fresh_config("proj", "/base");
    fs.deny(&"/base/proj/godot/project.godot".to_string());

    let result = create_godotrs::create_project(&config, &mut fs);
    match result {
        Err(CreateError::Io(path)) => {
            assert_eq!(path, "/base/proj/godot/project.godot".to_string());
        }
        _ => panic!("Expected Io error"),
    }
    // Full rollback: nothing is left at or below the project path.
    assert!(!fs.exists_at(&"/base/proj".to_string()));
    assert!(!fs.dir_exists(&"/base/proj/godot".to_string()));
    assert!(fs.read_file(&"/base/proj/.gitignore".to_string()).is_none());
    // The other tree is untouched.
    assert!(fs.dir_exists(&"/elsewhere/other/rust/src".to_string()));
    assert!(fs.read_file(&"/elsewhere/other/.gitignore".to_string()).is_some());
}

#[test]
fn test_io_failure_during_skeleton_rolls_back() {
    let mut fs = Fs::new();
    let config = fresh_config("proj", "/base");
    fs.deny(&"/base/proj/rust".to_string());

    let result = create_godotrs::create_project(&config, &mut fs);
    match result {
        Err(CreateError::Io(path)) => {
            assert_eq!(path, "/base/proj/rust".to_string());
        }
        _ => panic!("Expected Io error"),
    }
    assert!(!fs.exists_at(&"/base/proj".to_string()));
    assert!(!fs.dir_exists(&"/base/proj/godot".to_string()));
}

#[test]
fn test_occupied_subpath_fails_directory_creation() {
    let mut fs = Fs::new();
    // Something already stands at a subpath the skeleton needs, while the
    // project path itself is free: directory creation must surface an I/O
    // error naming that subpath, and the attempt is rolled back.
    let squatter = fresh_config("godot", "/base/proj");
    create_godotrs::create_project(&squatter, &mut fs).unwrap();
    assert!(!fs.exists_at(&"/base/proj".to_string()));

    let config = fresh_config("proj", "/base");
    let result = create_godotrs::create_project(&config, &mut fs);
    match result {
        Err(CreateError::Io(path)) => {
            assert_eq!(path, "/base/proj/godot".to_string());
        }
        _ => panic!("Expected Io error"),
    }
    assert!(!fs.exists_at(&"/base/proj".to_string()));
}

#[test]
fn test_static_template_contents_exact() {
    let mut fs = Fs::new();
    let config = fresh_config("proj", "/base");
    create_godotrs::create_project(&config, &mut fs).unwrap();
    let root_ignore = fs.read_file(&"/base/proj/.gitignore".to_string()).unwrap();
    assert_eq!(root_ignore, "target/\n.DS_Store\n".to_string());
    let rust_ignore = fs.read_file(&"/base/proj/rust/.gitignore".to_string()).unwrap();
    assert_eq!(rust_ignore, "target/\nCargo.lock\n".to_string());
}

#[test]
fn test_replay_listings_cover_the_tree() {
    let mut fs = Fs::new();
    let config = fresh_config("proj", "/base");
    create_godotrs::create_project(&config, &mut fs).unwrap();

    let dirs = fs.dir_paths();
    assert_eq!(dirs.len(), 4);
    assert!(dirs.contains(&"/base/proj".to_string()));
    assert!(dirs.contains(&"/base/proj/rust/src".to_string()));

    let files = fs.file_entries();
    assert_eq!(files.len(), 7);
    assert!(files.iter().any(|(p, c)| {
        p == "/base/proj/godot/project.godot"
            && c == "[application]\nconfig/name=\"proj-godot\"\n"
    }));
}
