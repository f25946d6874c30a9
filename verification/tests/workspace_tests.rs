use oi_helper::workspace::{executable_name, CompileCommand, Workspace};

fn workspace(flags: &str) -> Workspace {
    Workspace {
        cc_compiler: "g++".to_string(),
        cc_flags: flags.to_string(),
        cc_default_extension: "cc".to_string(),
    }
}

fn strings(items: &[&str]) -> Vec<String> {
    items.iter().map(|s| s.to_string()).collect()
}

#[test]
fn source_name_appends_extension() {
    let ws = workspace("");
    assert_eq!(ws.source_name("a"), "a.cc");
    assert_eq!(ws.source_name("a.cpp"), "a.cpp.cc");
    assert_eq!(ws.source_name(""), ".cc");
}

#[test]
fn executable_name_drops_last_extension() {
    assert_eq!(executable_name("a.cc"), "a");
    assert_eq!(executable_name("a.b.cc"), "a.b");
    assert_eq!(executable_name("plain"), "plain");
    assert_eq!(executable_name(""), "");
    assert_eq!(executable_name(".cc"), "");
    assert_eq!(executable_name("a."), "a");
}

#[test]
fn flags_split_on_spaces() {
    assert_eq!(
        workspace("-std=c++11 -O2 -Wall -xc++ ").parse_args(),
        strings(&["-std=c++11", "-O2", "-Wall", "-xc++"])
    );
    assert_eq!(workspace("-O2").parse_args(), strings(&["-O2"]));
    assert_eq!(workspace("").parse_args(), strings(&[]));
    assert_eq!(workspace("   ").parse_args(), strings(&[]));
    assert_eq!(workspace("  a   b  ").parse_args(), strings(&["a", "b"]));
}

#[test]
fn flags_keep_spaces_inside_quotes() {
    assert_eq!(
        workspace("-DNAME=\"a b\" -O2").parse_args(),
        strings(&["-DNAME=a b", "-O2"])
    );
    assert_eq!(workspace("\"a b\" c").parse_args(), strings(&["a b", "c"]));
    assert_eq!(workspace("\"\"").parse_args(), strings(&[]));
    assert_eq!(workspace("\"unclosed rest").parse_args(), strings(&["unclosed rest"]));
}

#[test]
fn flags_take_escaped_character_literally() {
    assert_eq!(
        workspace("\"a\\\"b c\" d").parse_args(),
        strings(&["a\"b c", "d"])
    );
    assert_eq!(workspace("\"a\\\\b\"").parse_args(), strings(&["a\\b"]));
    assert_eq!(workspace("a\\b").parse_args(), strings(&["a\\b"]));
}

#[test]
fn compile_command_lists_flags_output_and_source() {
    let ws = workspace("-O2 -Wall");
    assert_eq!(
        ws.compile_cpp("a.cc", "a", false),
        CompileCommand {
            program: "g++".to_string(),
            arguments: strings(&["-O2", "-Wall", "-o", "a", "a.cc"]),
        }
    );
    assert_eq!(
        ws.compile_cpp("a.cc", "a", true),
        CompileCommand {
            program: "g++".to_string(),
            arguments: strings(&["-O2", "-Wall", "-o", "a", "-D__DEBUG__", "a.cc"]),
        }
    );
}
