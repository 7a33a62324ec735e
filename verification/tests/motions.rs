//! Reversing motions and character searches.
use reedline::edit_mode::hx::motion::HxCharSearch;
use reedline::enums::{Direction, FindStop, MotionTarget, WordEdge, WordKind};

#[test]
fn reversing_a_motion_twice_gives_it_back() {
    let targets = vec![
        MotionTarget::Grapheme(Direction::Forward),
        MotionTarget::Word { kind: WordKind::LongWord, edge: WordEdge::End, direction: Direction::Backward },
        MotionTarget::Find { ch: 'x', direction: Direction::Forward, stop: FindStop::Before },
        MotionTarget::LineEdge(Direction::Backward),
        MotionTarget::BufferEdge(Direction::Forward),
    ];
    for t in targets {
        assert_eq!(t.reversed().reversed(), t);
    }
    assert_eq!(
        MotionTarget::Find { ch: 'x', direction: Direction::Forward, stop: FindStop::On }.reversed(),
        MotionTarget::Find { ch: 'x', direction: Direction::Backward, stop: FindStop::On }
    );
}

#[test]
fn reversing_a_character_search_twice_gives_it_back() {
    let searches = vec![
        HxCharSearch::ToRight('a'),
        HxCharSearch::ToLeft('b'),
        HxCharSearch::TillRight('c'),
        HxCharSearch::TillLeft('d'),
    ];
    for s in searches {
        assert_eq!(s.reverse().reverse(), s);
    }
    assert_eq!(HxCharSearch::ToRight('a').reverse(), HxCharSearch::ToLeft('a'));
}
