use regex::Regex;
use treasure_hunt::grammar::validate_and_strip;
use treasure_hunt::{BoardError, Position};

/// The three shapes of a numeric line as one pattern: a body in round
/// brackets, in square brackets, or bare.
const SHAPES: &str =
    r"^([(]{1}[0-9,a-fxA-F\-]+[)]{1}$|[\[]{1}[0-9,a-fxA-F\-]+[\]]{1}$|[0-9,a-fxA-F\-]+$)";

fn lines(alphabet: &[char], longest: usize) -> Vec<String> {
    let mut all = vec![String::new()];
    let mut last = vec![String::new()];
    for _ in 0..longest {
        let mut next = Vec::new();
        for line in &last {
            for c in alphabet {
                let mut longer = line.clone();
                longer.push(*c);
                next.push(longer);
            }
        }
        all.extend(next.iter().cloned());
        last = next;
    }
    all
}

#[test]
fn the_shapes_are_those_of_the_pattern() {
    let pattern = Regex::new(SHAPES).unwrap();
    let alphabet = ['(', ')', '[', ']', '1', 'a', 'F', 'x', ',', '-', 'g', '+'];
    for line in lines(&alphabet, 5) {
        let body = validate_and_strip(&line);
        assert_eq!(body.is_some(), pattern.is_match(&line), "{:?}", line);
        if let Some(body) = body {
            let inner = line
                .trim_start_matches(|p| p == '(' || p == '[')
                .trim_end_matches(|p| p == ')' || p == ']');
            assert_eq!(body.iter().collect::<String>(), inner, "{:?}", line);
        }
    }
}

#[test]
fn spaces_count_nowhere_in_a_shape() {
    let pattern = Regex::new(SHAPES).unwrap();
    let alphabet = ['(', ']', '1', ',', ' ', 'z'];
    for line in lines(&alphabet, 6) {
        let clean = line.trim().replace(' ', "");
        assert_eq!(
            validate_and_strip(&line).is_some(),
            pattern.is_match(&clean),
            "{:?}",
            line
        );
        assert_eq!(
            matches!(Position::from_str(&line), Err(BoardError::InvalidFormat(_))),
            !pattern.is_match(&clean),
            "{:?}",
            line
        );
    }
}

#[test]
fn the_prefix_of_a_hexadecimal_number_may_be_a_capital() {
    assert_eq!(validate_and_strip("0X1F,2"), Some("0X1F,2".chars().collect()));
    assert_eq!(Position::from_str("[0X1F,0x2]"), Ok(Position { x: 31, y: 2 }));
}
