use sparktest::validation::{
    sanitize_commands, sanitize_description, sanitize_labels, sanitize_name,
    validate_docker_image, validate_execution_mode,
};

#[test]
fn test_sanitize_name_valid() {
    assert_eq!(sanitize_name("Valid Name").unwrap(), "Valid Name");
    assert_eq!(sanitize_name("test-name_123").unwrap(), "test-name_123");
    assert_eq!(sanitize_name("  spaced  ").unwrap(), "spaced");
}

#[test]
fn test_sanitize_name_invalid() {
    assert!(sanitize_name("").is_err());
    assert!(sanitize_name("   ").is_err());
    assert!(sanitize_name("name@with$pecial").is_err());
    assert!(sanitize_name(&"a".repeat(300)).is_err());
}

#[test]
fn test_sanitize_description_valid() {
    assert_eq!(
        sanitize_description("Valid description").unwrap(),
        "Valid description"
    );
    assert_eq!(sanitize_description("").unwrap(), "");
}

#[test]
fn test_sanitize_description_escapes_html() {
    let desc = "<script>alert('xss')</script>";
    let result = sanitize_description(desc).unwrap();
    assert!(!result.contains("<script>"));
    assert!(result.contains("&amp;lt;script&amp;gt;"));
}

#[test]
fn test_validate_docker_image_valid() {
    assert_eq!(validate_docker_image("nginx:latest").unwrap(), "nginx:latest");
    assert_eq!(
        validate_docker_image("registry.com/user/repo:tag").unwrap(),
        "registry.com/user/repo:tag"
    );
    assert_eq!(validate_docker_image("ubuntu").unwrap(), "ubuntu");
}

#[test]
fn test_validate_docker_image_invalid() {
    assert!(validate_docker_image("").is_err());
    assert!(validate_docker_image("image$(whoami)").is_err());
    assert!(validate_docker_image("image;rm -rf /").is_err());
    assert!(validate_docker_image("../malicious").is_err());
}

#[test]
fn test_sanitize_commands_valid() {
    let commands = vec!["echo".to_string(), "hello".to_string()];
    let result = sanitize_commands(&commands).unwrap();
    assert_eq!(result, vec!["echo", "hello"]);
}

#[test]
fn test_sanitize_commands_invalid() {
    assert!(sanitize_commands(&Vec::new()).is_err());
    assert!(sanitize_commands(&vec!["rm -rf /".to_string()]).is_err());
    assert!(sanitize_commands(&vec!["echo $(whoami)".to_string()]).is_err());
    assert!(sanitize_commands(&vec!["cmd;malicious".to_string()]).is_err());
}

#[test]
fn test_sanitize_labels_valid() {
    let labels = vec!["test".to_string(), "production".to_string()];
    let result = sanitize_labels(&labels).unwrap();
    assert_eq!(result, vec!["test", "production"]);
}

#[test]
fn test_sanitize_labels_removes_duplicates() {
    let labels = vec!["test".to_string(), "TEST".to_string(), "test".to_string()];
    let result = sanitize_labels(&labels).unwrap();
    assert_eq!(result, vec!["test"]);
}

#[test]
fn test_validate_execution_mode() {
    assert_eq!(validate_execution_mode("sequential").unwrap(), "sequential");
    assert_eq!(validate_execution_mode("PARALLEL").unwrap(), "parallel");
    assert!(validate_execution_mode("invalid").is_err());
}

#[test]
fn name_error_texts() {
    assert_eq!(sanitize_name("").unwrap_err(), "Name cannot be empty");
    assert_eq!(
        sanitize_name(&"a".repeat(300)).unwrap_err(),
        "Name too long: 300 characters (max 255)"
    );
    assert_eq!(
        sanitize_name("bad!name").unwrap_err(),
        "Name contains invalid characters. Only alphanumeric characters, spaces, hyphens, underscores, and periods are allowed"
    );
    assert_eq!(
        sanitize_name("   ").unwrap_err(),
        "Name cannot be empty after trimming"
    );
}

#[test]
fn description_error_text() {
    let long = "d".repeat(1001);
    assert_eq!(
        sanitize_description(&long).unwrap_err(),
        "Description too long: 1001 characters (max 1000)"
    );
}

#[test]
fn description_trims_after_escaping() {
    assert_eq!(sanitize_description("  a & b  ").unwrap(), "a &amp; b");
    assert_eq!(sanitize_description("x/y").unwrap(), "x&#x2F;y");
}

#[test]
fn image_error_texts() {
    assert_eq!(
        validate_docker_image("").unwrap_err(),
        "Docker image cannot be empty"
    );
    assert_eq!(
        validate_docker_image(&"i".repeat(300)).unwrap_err(),
        "Docker image name too long: 300 characters (max 255)"
    );
    assert_eq!(
        validate_docker_image("a//b").unwrap_err(),
        "Invalid Docker image format. Must be in format: [registry/]namespace/repository[:tag]"
    );
    assert_eq!(
        validate_docker_image("../up").unwrap_err(),
        "Docker image contains potentially dangerous characters"
    );
}

#[test]
fn image_shape_edges() {
    assert!(validate_docker_image("/leading").is_err());
    assert!(validate_docker_image("trailing/").is_err());
    assert!(validate_docker_image("a:b:c").is_err());
    assert!(validate_docker_image("notag:").is_err());
    assert!(validate_docker_image(":justtag").is_err());
    assert!(validate_docker_image("a.b-c_d/e:f.g").is_ok());
}

#[test]
fn commands_error_texts() {
    assert_eq!(
        sanitize_commands(&Vec::new()).unwrap_err(),
        "Commands cannot be empty"
    );
    let many: Vec<String> = (0..101).map(|_| "echo".to_string()).collect();
    assert_eq!(sanitize_commands(&many).unwrap_err(), "Too many commands (max 100)");
    let long = vec!["c".repeat(1001)];
    assert_eq!(
        sanitize_commands(&long).unwrap_err(),
        "Command too long: 1001 characters (max 1000)"
    );
    assert_eq!(
        sanitize_commands(&vec!["echo `id`".to_string()]).unwrap_err(),
        "Command contains potentially dangerous pattern: `"
    );
    assert_eq!(
        sanitize_commands(&vec!["a > b".to_string()]).unwrap_err(),
        "Command contains potentially dangerous pattern: >"
    );
    assert_eq!(
        sanitize_commands(&vec!["   ".to_string()]).unwrap_err(),
        "No valid commands found after sanitization"
    );
}

#[test]
fn commands_skip_blank_entries() {
    let commands = vec!["  ".to_string(), " echo ".to_string(), "".to_string()];
    assert_eq!(sanitize_commands(&commands).unwrap(), vec!["echo"]);
}

#[test]
fn labels_error_texts() {
    let many: Vec<String> = (0..51).map(|i| format!("l{}", i)).collect();
    assert_eq!(sanitize_labels(&many).unwrap_err(), "Too many labels (max 50)");
    let long = vec!["x".repeat(101)];
    assert_eq!(
        sanitize_labels(&long).unwrap_err(),
        "Label too long: 101 characters (max 100)"
    );
    assert_eq!(
        sanitize_labels(&vec!["bad label".to_string()]).unwrap_err(),
        "Label contains invalid characters. Only alphanumeric characters, hyphens, underscores, and periods are allowed"
    );
    assert!(sanitize_labels(&vec!["".to_string()]).is_err());
}

#[test]
fn labels_keep_first_occurrence_order() {
    let labels = vec!["B".to_string(), "a".to_string(), "b".to_string()];
    assert_eq!(sanitize_labels(&labels).unwrap(), vec!["b", "a"]);
    let empty: Vec<String> = Vec::new();
    assert_eq!(sanitize_labels(&empty).unwrap(), Vec::<String>::new());
}

#[test]
fn execution_mode_error_text() {
    assert_eq!(
        validate_execution_mode("batch").unwrap_err(),
        "Execution mode must be 'sequential' or 'parallel'"
    );
    assert_eq!(validate_execution_mode("SeQuEnTiAl").unwrap(), "sequential");
}
