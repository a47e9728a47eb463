use git_prompt::paint::{paint, Paint};

#[test]
fn red_is_colour_one() {
    assert_eq!(paint("text", Paint::Red), "\x1b[38;5;1mtext\x1b[0m");
}

#[test]
fn green_is_colour_two() {
    assert_eq!(paint("text", Paint::Green), "\x1b[38;5;2mtext\x1b[0m");
}

#[test]
fn yellow_is_colour_three() {
    assert_eq!(paint("text", Paint::Yellow), "\x1b[38;5;3mtext\x1b[0m");
}

#[test]
fn blue_is_colour_four() {
    assert_eq!(paint("text", Paint::Blue), "\x1b[38;5;4mtext\x1b[0m");
}

#[test]
fn an_empty_text_keeps_its_colour() {
    assert_eq!(paint("", Paint::Blue), "\x1b[38;5;4m\x1b[0m");
}

#[test]
fn painting_adds_thirteen_characters() {
    for colour in [Paint::Red, Paint::Green, Paint::Yellow, Paint::Blue] {
        let out = paint("feature/x", colour);
        assert_eq!(out.chars().count(), "feature/x".chars().count() + 13);
        assert_eq!(&out[9..out.len() - 4], "feature/x");
    }
}
