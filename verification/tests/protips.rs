use janosik::commands::protip::{extract_task_and_content, list_protips};
use janosik::database::protip_handler::{
    add_protip_query, remove_protip_query, Protip, CREATE_TABLE_QUERY, SELECT_PROTIPS_QUERY,
    SELECT_TASKS_QUERY,
};

fn parsed(content: &str, task: &str) -> Option<(String, String)> {
    Some((content.to_string(), task.to_string()))
}

/// The same command as `scan_fmt` reads it under a format that states the
/// grammar: the task first, then the rest of the line.
fn scanned(content: &str) -> Option<(String, String)> {
    let mut fields = scan_fmt::parse::scan(content, "{} {/(.*)/}");
    let task = fields.next()?;
    let text = fields.next()?;
    Some((text, task))
}

#[test]
fn add_command_holds_a_task_and_a_text() {
    assert_eq!(extract_task_and_content("zad1 use a loop"), parsed("use a loop", "zad1"));
    assert_eq!(extract_task_and_content("  zad1 \t use  a loop  "), parsed("use  a loop  ", "zad1"));
    assert_eq!(extract_task_and_content("zad1 x"), parsed("x", "zad1"));
}

#[test]
fn add_command_needs_both() {
    assert_eq!(extract_task_and_content(""), None);
    assert_eq!(extract_task_and_content("   "), None);
    assert_eq!(extract_task_and_content("zad1"), None);
    assert_eq!(extract_task_and_content("zad1   \n"), None);
}

#[test]
fn protip_text_ends_with_its_line() {
    assert_eq!(extract_task_and_content("zad1 first\nsecond"), parsed("first", "zad1"));
    assert_eq!(extract_task_and_content("zad1\nfirst\nsecond"), parsed("first", "zad1"));
}

#[test]
fn protip_text_beyond_ascii() {
    assert_eq!(
        extract_task_and_content("zadanie użyj pętli, żółwiu"),
        parsed("użyj pętli, żółwiu", "zadanie")
    );
}

#[test]
fn plain_add_commands_read_as_the_scanner_reads_them() {
    let commands = [
        "zad1 use a loop",
        "  zad1 \t use  a loop  ",
        "zad1 x",
        "",
        "   ",
        "zad1",
        "zad1   \n",
        "zad1 first\nsecond",
        "zad1\nfirst\nsecond",
        "a b c d e",
    ];
    for command in commands {
        assert_eq!(extract_task_and_content(command), scanned(command), "{:?}", command);
    }
}

#[test]
fn protip_is_shown_with_its_number() {
    assert_eq!(Protip::new(1, "zad1".to_string(), "use a loop".to_string()).to_string(), "1. use a loop");
    assert_eq!(Protip::new(0, String::new(), String::new()).to_string(), "0. ");
    assert_eq!(Protip::new(-12, "t".to_string(), "x".to_string()).to_string(), "-12. x");
    assert_eq!(Protip::new(i32::MAX, "t".to_string(), "x".to_string()).to_string(), "2147483647. x");
    assert_eq!(Protip::new(i32::MIN, "t".to_string(), "x".to_string()).to_string(), "-2147483648. x");
}

#[test]
fn protips_are_listed_one_on_a_line() {
    assert_eq!(list_protips("zad1", Vec::new()), "Protipy `zad1`:\n");
    let protips = vec![
        Protip::new(1, "zad1".to_string(), "use a loop".to_string()),
        Protip::new(5, "zad1".to_string(), "nie używaj pętli".to_string()),
    ];
    assert_eq!(
        list_protips("zad1", protips),
        "Protipy `zad1`:\n\t1. use a loop\n\t5. nie używaj pętli\n"
    );
}

#[test]
fn statements_hold_their_values_as_they_are() {
    assert_eq!(
        add_protip_query("zad1", "use a loop"),
        "INSERT INTO protip (task_id, content) VALUES (\"zad1\", \"use a loop\")"
    );
    assert_eq!(
        add_protip_query("", ""),
        "INSERT INTO protip (task_id, content) VALUES (\"\", \"\")"
    );
    assert_eq!(remove_protip_query(0), "DELETE FROM protip WHERE id = 0");
    assert_eq!(remove_protip_query(31), "DELETE FROM protip WHERE id = 31");
    assert_eq!(remove_protip_query(u32::MAX), "DELETE FROM protip WHERE id = 4294967295");
}

#[test]
fn fixed_statements() {
    assert!(CREATE_TABLE_QUERY.starts_with("CREATE TABLE IF NOT EXISTS protip ("));
    assert!(CREATE_TABLE_QUERY.contains("id              INTEGER PRIMARY KEY,"));
    assert!(CREATE_TABLE_QUERY.contains("task_id         TEXT NOT NULL,"));
    assert!(CREATE_TABLE_QUERY.contains("content         TEXT NOT NULL"));
    assert_eq!(SELECT_PROTIPS_QUERY, "SELECT id, task_id, content FROM protip WHERE task_id = ?1");
    assert_eq!(SELECT_TASKS_QUERY, "SELECT DISTINCT task_id FROM protip");
}

/// Texts over a few characters that matter to the grammar, in a fixed order.
fn sample_texts(count: usize, longest: usize) -> Vec<String> {
    let alphabet = ['a', 'b', ' ', ' ', '`', '\n', '\t', '\r'];
    let mut state: u64 = 0x9e37_79b9_7f4a_7c15;
    let mut next = move || {
        state = state.wrapping_mul(6364136223846793005).wrapping_add(1442695040888963407);
        (state >> 33) as usize
    };
    let mut texts = Vec::new();
    for _ in 0..count {
        let length = next() % (longest + 1);
        let mut text = String::new();
        for _ in 0..length {
            text.push(alphabet[next() % alphabet.len()]);
        }
        texts.push(text);
    }
    texts
}

#[test]
fn many_plain_add_commands_read_as_the_scanner_reads_them() {
    for text in sample_texts(20000, 16) {
        assert_eq!(extract_task_and_content(&text), scanned(&text), "{:?}", text);
    }
}
