use cxgledit::textbuffer::gap_buffer::GapBuffer as GB;
use cxgledit::textbuffer::SubstringClone;

// A short sample of source text to fill the buffer with.
const SAMPLE_TEXT: &str = "fn main() {\n    let greeting = \"hello world\";\n    println!(\"{}\", greeting);\n}\n";

#[test]
fn test_iteration() {
    let text_data = SAMPLE_TEXT;
    let mut gb = GB::new_with_capacity(text_data.len());
    gb.map_into(text_data.chars().collect());
    assert_eq!(gb.len(), text_data.len(), "Gap buffer not matching correct datal length");
}

#[test]
fn test_get_entire_content_but_provide_larger_range_parameter() {
    let mut gb = GB::new_with_capacity(13);
    let mfer: Vec<char> = " go fuck yourself biatch!".chars().collect();
    let assertion_ok = "hello go fuck yourself biatch! world";
    gb.map_into("hello world".chars().collect());
    gb.set_gap_position(5);
    gb.insert_slice(&mfer[..]);
    println!("buffer contents: {:?}", gb.read_string(0..assertion_ok.len()));
    let two_times: Vec<_> = assertion_ok.chars().chain(assertion_ok.chars()).collect();
    gb.set_gap_position(0);
    gb.insert_slice(&assertion_ok.chars().collect::<Vec<_>>()[..]);
    let larger_range = 0..two_times.len() * 10;
    gb.debug();
    assert_eq!(gb.read_string(larger_range), two_times.iter().collect::<String>());
}

#[test]
fn test_slice_insertion() {
    let mut gb = GB::new_with_capacity(13);
    let mfer: Vec<char> = " go fuck yourself biatch!".chars().collect();
    let assertion_ok = "hello go fuck yourself biatch! world";
    gb.map_into("hello world".chars().collect());
    gb.set_gap_position(5);
    gb.insert_slice(&mfer[..]);
    println!("buffer contents: {:?}", gb.read_string(0..assertion_ok.len()));
    assert_eq!(gb.read_string(0..assertion_ok.len()).len(), assertion_ok.len());
    assert_eq!(gb.read_string(0..assertion_ok.len()), assertion_ok);
    let two_times: Vec<_> = assertion_ok.chars().chain(assertion_ok.chars()).collect();
    gb.set_gap_position(0);
    gb.insert_slice(&assertion_ok.chars().collect::<Vec<_>>()[..]);
    assert_eq!(gb.read_string(0..two_times.len()), two_times.iter().collect::<String>());
}

#[test]
fn test_subslices() {
    let hw = "hello world! Good morning vietnam";
    let mut gb = GB::new_with_capacity(hw.len());
    gb.map_into(hw.chars().collect());
    gb.set_gap_position(5);
    {
        let (sub_a, sub_b) = gb.data_slices();
        // sub_a === "hello", sub_b === " world! Good morning vietnam"
        for (gb_char, subs_char) in hw.chars().zip(sub_a.iter().chain(sub_b.iter())) {
            assert_eq!(gb_char, *subs_char, "characters were not equal");
        }
    }
}

#[test]
fn test_gapbuffer_insert() {
    let mut gb = GB::new();
    gb.map_into("hello world!".chars().collect());
    assert_eq!(gb.get(0), Some(&'h'));
}

#[test]
fn test_gapbuffer_read_string() {
    let mut gb = GB::new();
    gb.map_into("hello world!".chars().collect());
    assert_eq!(gb.read_string(0..5), "hello");
}

#[test]
fn test_gapbuffer_dump_to_string() {
    let mut gb = GB::new();
    gb.map_into("hello world!".chars().collect());
    assert_eq!(gb.read_string(0..25), "hello world!");
}

#[test]
fn test_insert_move_insert() {
    let mut gb = GB::new();
    gb.map_into("hello world!".chars().collect());
    assert_eq!(gb.read_string(0..25), "hello world!");
    gb.set_gap_position(6);
    gb.map_into("fucking ".chars().collect());
    assert_eq!(gb.read_string(0..25), "hello fucking world!");
}

#[test]
fn test_insert_lines() {}

#[test]
fn test_remove_char() {
    let mut gb = GB::new();
    gb.map_into("hello world!".chars().collect());
    gb.remove();
    assert_eq!("hello world", gb.read_string(0..25));
}

#[test]
fn test_insert_newline() {
    let mut gb = GB::new();
    gb.map_into("hello world".chars().collect());
    gb.set_gap_position(5);
    gb.insert_item('\n');
    assert_eq!("hello\n world", gb.read_string(0..25));
}

#[test]
fn test_remove_world_from_hello_world() {
    let mut gb = GB::new();
    gb.map_into("hello world".chars().collect());
    gb.set_gap_position(6);
    for _ in 0..5 {
        gb.delete();
    }
    assert_eq!("hello ", gb.read_string(0..25));
}

#[test]
fn test_replace_world_with_simon() {
    let mut gb = GB::new();
    gb.map_into("hello world".chars().collect());
    gb.set_gap_position(6);
    for _ in 0..5 {
        gb.delete();
    }
    let simon: String = "Simon".into();
    gb.map_into(simon.chars().collect());
    assert_eq!("hello Simon", gb.read_string(0..25));
}

#[test]
fn gap_grows_when_full() {
    let mut gb: GB<char> = GB::new();
    assert_eq!(gb.capacity(), 0);
    gb.insert_item('a');
    assert_eq!(gb.capacity(), 512);
    let mut small: GB<char> = GB::new_with_capacity(5);
    for c in "abcde".chars() {
        small.insert_item(c);
    }
    assert_eq!(small.capacity(), 5);
    small.insert_item('f');
    // (5 * 7 + 2) / 5
    assert_eq!(small.capacity(), 7);
    assert_eq!(small.free_space_size(), 1);
    assert_eq!(small.gap(), 6..7);
    assert_eq!(small.get_pos(), 6);
}

#[test]
fn erase_and_iterate() {
    let mut gb: GB<char> = GB::new_with_capacity(20);
    gb.map_into("hello world".chars().collect());
    gb.erase(2..7);
    assert_eq!(gb.read_string(0..100), "heorld");
    assert_eq!(gb.get_pos(), 2);
    let mut it = gb.iter();
    let mut seen = Vec::new();
    while let Some(c) = it.next() {
        seen.push(*c);
    }
    assert_eq!(seen.iter().collect::<String>(), "heorld");
    assert_eq!(gb.delete(), Some('o'));
    assert_eq!(gb.remove(), Some('e'));
    assert_eq!(gb.read_string(0..100), "hrld");
    assert_eq!(gb.debug(), format!("h{}rld", "-".repeat(16)));
    assert_eq!(gb.read_string(3..1), "");
}

#[test]
fn iterator_position_and_rposition() {
    let mut gb: GB<char> = GB::new_with_capacity(16);
    gb.map_into("a b,c".chars().collect());
    // the walk stops one past the first space
    let mut it = gb.iter();
    assert_eq!(it.size_hint(), (5, Some(5)));
    assert_eq!(it.position(|c: &char| *c == ' '), Some(2));
    assert_eq!(it.size_hint(), (3, Some(3)));
    assert_eq!(it.pos, 2);
    // from there on there is no other space
    assert_eq!(it.position(|c: &char| *c == ' '), None);
    assert_eq!(it.pos, 5);
    // walking down from index 3 stops one below the comma at index 3
    let mut back = gb.iter();
    back.pos = 1;
    back.end = 4;
    assert_eq!(back.rposition(|c: &char| *c == ','), Some(2));
    assert_eq!(back.end, 2);
    // an end at the length gives nothing to walk
    let mut whole = gb.iter();
    assert_eq!(whole.rposition(|c: &char| *c == 'a'), None);
    assert_eq!(whole.end, 5);
    // nothing matches between positions 1 and 2: the end stops just below the start
    let mut none = gb.iter();
    none.pos = 1;
    none.end = 2;
    assert_eq!(none.rposition(|c: &char| *c == 'z'), None);
    assert_eq!(none.end, 0);
}
