use kowalski_rlm::code_block_parser::{standard_name, CodeBlockParser};

#[test]
fn test_extract_python_markdown() {
    let parser = CodeBlockParser::new();
    let text = "Here's Python code:\n```python\nprint('hello')\n```";
    let blocks = parser.extract_from(text).unwrap();
    
    assert_eq!(blocks.len(), 1);
    assert_eq!(blocks[0].language, "python");
    assert_eq!(blocks[0].code, "print('hello')");
}

    #[test]
    fn test_extract_multiple_blocks() {
        let parser = CodeBlockParser::new();
        let text = r#"
First:
```python
x = 1
```

Second:
```rust
fn main() {}
```
"#;
        let blocks = parser.extract_from(text).unwrap();
        
        assert_eq!(blocks.len(), 2);
        assert_eq!(blocks[0].language, "python");
        assert_eq!(blocks[1].language, "rust");
    }

#[test]
fn test_extract_rust() {
    let parser = CodeBlockParser::new();
    let text = "```rust\nfn main() { println!(\"hi\"); }\n```";
    let blocks = parser.extract_from(text).unwrap();
    
    assert_eq!(blocks.len(), 1);
    assert_eq!(blocks[0].language, "rust");
    assert!(blocks[0].code.contains("main"));
}

#[test]
fn test_extract_java() {
    let parser = CodeBlockParser::new();
    let text = "```java\npublic class Hello {}\n```";
    let blocks = parser.extract_from(text).unwrap();
    
    assert_eq!(blocks.len(), 1);
    assert_eq!(blocks[0].language, "java");
}

#[test]
fn test_extract_javascript() {
    let parser = CodeBlockParser::new();
    let text = "```javascript\nconst x = 1;\n```";
    let blocks = parser.extract_from(text).unwrap();
    
    assert_eq!(blocks.len(), 1);
    assert_eq!(blocks[0].language, "javascript");
}

#[test]
fn test_extract_bash() {
    let parser = CodeBlockParser::new();
    let text = "```bash\necho hello\n```";
    let blocks = parser.extract_from(text).unwrap();
    
    assert_eq!(blocks.len(), 1);
    assert_eq!(blocks[0].language, "bash");
}

#[test]
fn test_extract_tilde_fence() {
    let parser = CodeBlockParser::new();
    let text = "~~~python\nx = 1\n~~~";
    let blocks = parser.extract_from(text).unwrap();
    
    assert_eq!(blocks.len(), 1);
    assert_eq!(blocks[0].language, "python");
}

#[test]
fn test_normalize_language() {
    let parser = CodeBlockParser::new();
    
    assert_eq!(parser.detect_language("Python"), Some("python".to_string()));
    assert_eq!(parser.detect_language("PY"), Some("python".to_string()));
    assert_eq!(parser.detect_language("Rust"), Some("rust".to_string()));
    assert_eq!(parser.detect_language("JavaScript"), Some("javascript".to_string()));
    assert_eq!(parser.detect_language("JS"), Some("javascript".to_string()));
}

#[test]
fn test_unsupported_language() {
    let parser = CodeBlockParser::new();
    let text = "```c++\nint x = 1;\n```";
    let blocks = parser.extract_from(text).unwrap();
    
    // C++ is not supported, so no blocks should be extracted
    assert_eq!(blocks.len(), 0);
}

    #[test]
    fn test_code_with_special_chars() {
        let parser = CodeBlockParser::new();
        let text = r#"```python
s = "This has ``` in it"
print(s)
```"#;
        let blocks = parser.extract_from(text).unwrap();
        
        assert_eq!(blocks.len(), 1);
        assert!(blocks[0].code.contains("```"));
    }

#[test]
fn test_empty_code_block() {
    let parser = CodeBlockParser::new();
    let text = "```python\n```";
    let blocks = parser.extract_from(text).unwrap();
    
    assert_eq!(blocks.len(), 1);
    assert!(blocks[0].code.is_empty() || blocks[0].code.trim().is_empty());
}

#[test]
fn test_no_code_blocks() {
    let parser = CodeBlockParser::new();
    let text = "Just plain text with no code blocks";
    let blocks = parser.extract_from(text).unwrap();
    
    assert_eq!(blocks.len(), 0);
}

#[test]
fn indented_runs_are_python_blocks() {
    let parser = CodeBlockParser::new();
    let text = "Intro\n    x = 1\n\ty = 2\nOutro";
    let blocks = parser.extract_from(text).unwrap();
    assert_eq!(blocks.len(), 1);
    assert_eq!(blocks[0].language, "python");
    assert_eq!(blocks[0].code, "x = 1\ny = 2");
}

#[test]
fn fences_come_before_tildes_and_aliases_are_normalized() {
    let parser = CodeBlockParser::new();
    let text = "~~~ SH \necho 1\n~~~\n```Py\n  print(1)  \n```\n```js\nlet a;\n```";
    let blocks = parser.extract_from(text).unwrap();
    assert_eq!(blocks.len(), 3);
    assert_eq!(blocks[0].language, "python");
    assert_eq!(blocks[0].code, "print(1)");
    assert_eq!(blocks[1].language, "javascript");
    assert_eq!(blocks[1].code, "let a;");
    assert_eq!(blocks[2].language, "bash");
    assert_eq!(blocks[2].code, "echo 1");
}

#[test]
fn language_helpers() {
    let parser = CodeBlockParser::new();
    assert!(parser.is_supported_language("python3"));
    assert!(parser.is_supported_language("shell"));
    assert!(!parser.is_supported_language("Python"));
    assert!(!parser.is_supported_language("c++"));
    assert_eq!(parser.normalize_language("  RS "), "rust");
    assert_eq!(parser.normalize_language("Python2"), "python");
    assert_eq!(parser.normalize_language("Kotlin"), "kotlin");
    assert_eq!(parser.detect_language(" Shell "), Some("bash".to_string()));
    assert_eq!(parser.detect_language("cobol"), None);
    assert_eq!(parser.detect_language(""), None);
}

#[test]
fn blocks_from_given_matches() {
    let parser = CodeBlockParser::new();
    let matches = vec![
        vec![Some("rust".to_string()), Some(" fn f() {} \n".to_string())],
        vec![Some("elvish".to_string()), Some("x".to_string())],
        vec![None, Some("x".to_string())],
        vec![Some("java".to_string())],
    ];
    let blocks = parser.blocks_from_fences(&matches);
    assert_eq!(blocks.len(), 1);
    assert_eq!(blocks[0].language, "rust");
    assert_eq!(blocks[0].code, "fn f() {}");
    let matches = vec![vec![Some("    a\n\tb\n  c".to_string())], vec![None], vec![]];
    let blocks = parser.blocks_from_indented(&matches);
    assert_eq!(blocks.len(), 1);
    assert_eq!(blocks[0].language, "python");
    assert_eq!(blocks[0].code, "a\nb\n  c");
}

#[test]
fn aliases_have_standard_names() {
    for (alias, name) in [
        ("python", "python"),
        ("py", "python"),
        ("python3", "python"),
        ("python2", "python"),
        ("rust", "rust"),
        ("rs", "rust"),
        ("java", "java"),
        ("javascript", "javascript"),
        ("js", "javascript"),
        ("bash", "bash"),
        ("sh", "bash"),
        ("shell", "bash"),
    ] {
        assert_eq!(standard_name(alias), Some(name.to_string()), "{}", alias);
    }
    for other in ["", "Python", "kotlin", "py ", "node"] {
        assert_eq!(standard_name(other), None, "{:?}", other);
    }
}
