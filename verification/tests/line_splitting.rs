use tv_switch::lines::{chars_of, split_lines};

fn as_chars(lines: &[&str]) -> Vec<Vec<char>> {
    lines.iter().map(|line| line.chars().collect()).collect()
}

fn by_std(text: &str) -> Vec<Vec<char>> {
    text.lines().map(|line| line.chars().collect()).collect()
}

fn texts_over(alphabet: &[char], max_len: usize) -> Vec<String> {
    let mut all = vec![String::new()];
    let mut last = vec![String::new()];
    for _ in 0..max_len {
        let mut next = Vec::new();
        for text in &last {
            for c in alphabet {
                let mut longer = text.clone();
                longer.push(*c);
                next.push(longer);
            }
        }
        all.extend(next.iter().cloned());
        last = next;
    }
    all
}

#[test]
fn chars_of_keeps_every_character() {
    assert_eq!(chars_of(""), Vec::<char>::new());
    assert_eq!(chars_of("tv\n"), vec!['t', 'v', '\n']);
    assert_eq!(chars_of("\u{e9}\u{1f4fa}x"), vec!['\u{e9}', '\u{1f4fa}', 'x']);
}

#[test]
fn the_empty_text_has_no_line() {
    assert_eq!(split_lines(""), Vec::<Vec<char>>::new());
}

#[test]
fn a_lone_line_feed_is_one_empty_line() {
    assert_eq!(split_lines("\n"), as_chars(&[""]));
    assert_eq!(split_lines("\r\n"), as_chars(&[""]));
    assert_eq!(split_lines("\n\n"), as_chars(&["", ""]));
}

#[test]
fn lines_end_at_line_feeds() {
    assert_eq!(split_lines("desktop\nscaled"), as_chars(&["desktop", "scaled"]));
    assert_eq!(split_lines("desktop\nscaled\n"), as_chars(&["desktop", "scaled"]));
    assert_eq!(split_lines("a\n\nb"), as_chars(&["a", "", "b"]));
    assert_eq!(split_lines("one line"), as_chars(&["one line"]));
}

#[test]
fn a_carriage_return_is_dropped_only_before_a_line_feed() {
    assert_eq!(split_lines("a\r\nb\r\n"), as_chars(&["a", "b"]));
    assert_eq!(split_lines("a\r\r\nb"), as_chars(&["a\r", "b"]));
    assert_eq!(split_lines("a\rb\nc\r"), as_chars(&["a\rb", "c\r"]));
    assert_eq!(split_lines("\r"), as_chars(&["\r"]));
}

#[test]
fn splitting_agrees_with_the_standard_library_on_short_texts() {
    for text in texts_over(&['a', '\r', '\n'], 7) {
        assert_eq!(split_lines(&text), by_std(&text), "text {:?}", text);
    }
}

#[test]
fn splitting_agrees_with_the_standard_library_on_other_line_breaks() {
    for text in texts_over(&['\n', '\u{2028}', '\u{b}', '\u{85}', '\u{e9}'], 5) {
        assert_eq!(split_lines(&text), by_std(&text), "text {:?}", text);
    }
}
