use multidevice::game::animations::Directions;
use multidevice::game::background::BackgroundID;
use multidevice::game::commands::{action_from_keyword, parse_action, Action};
use multidevice::game::components::{Entity, Health, PlayerInput, RenderLayer, State};
use multidevice::game::identifier::EntityID;
use multidevice::game::tally::add;

#[test]
fn parses_actions() {
    assert_eq!(parse_action("attack"), Some(Action::Attack));
    assert_eq!(parse_action("move_left"), Some(Action::MoveLeft));
    assert_eq!(parse_action("move_right"), Some(Action::MoveRight));
    assert_eq!(parse_action("move_up"), Some(Action::MoveUp));
    assert_eq!(parse_action("move_down"), Some(Action::MoveDown));
    assert_eq!(parse_action("HEAL"), Some(Action::Heal));
    assert_eq!(parse_action("unknown"), None);
}

#[test]
fn it_works() {
    let result = add(2, 2);
    assert_eq!(result, 4);
}

#[test]
fn add_reaches_the_largest_sum() {
    assert_eq!(add(u64::MAX - 1, 1), u64::MAX);
    assert_eq!(add(0, 0), 0);
}

#[test]
fn parse_action_ignores_surrounding_space() {
    assert_eq!(parse_action("  attack\t\n"), Some(Action::Attack));
    assert_eq!(parse_action(" Move_Left "), Some(Action::MoveLeft));
    assert_eq!(parse_action("move left"), None);
}

#[test]
fn parse_action_ignores_case() {
    assert_eq!(parse_action("DIE"), Some(Action::Die));
    assert_eq!(parse_action("Move_Down"), Some(Action::MoveDown));
}

#[test]
fn healing_has_two_spellings() {
    assert_eq!(parse_action("heal"), Some(Action::Heal));
    assert_eq!(parse_action("healt"), Some(Action::Heal));
    assert_eq!(parse_action("health"), None);
}

#[test]
fn parse_action_rejects_empty_input() {
    assert_eq!(parse_action(""), None);
    assert_eq!(parse_action("   "), None);
}

#[test]
fn keywords_are_matched_exactly() {
    assert_eq!(action_from_keyword("die"), Some(Action::Die));
    assert_eq!(action_from_keyword("move_up"), Some(Action::MoveUp));
    assert_eq!(action_from_keyword("HEAL"), None);
    assert_eq!(action_from_keyword(" attack"), None);
    assert_eq!(action_from_keyword("attack "), None);
}

#[test]
fn state_keys() {
    assert_eq!(State::Idle.as_str(), "Idle");
    assert_eq!(State::Attack.as_str(), "Attack");
    assert_eq!(State::Walk.as_str(), "Walk");
    assert_eq!(State::Run.as_str(), "Run");
    assert_eq!(State::Hurt.as_str(), "Hurt");
    assert_eq!(State::Death.as_str(), "Die");
}

#[test]
fn entity_names() {
    assert_eq!(EntityID::Player.to_string(), "Player");
    assert_eq!(EntityID::SlimeSimple.to_string(), "SlimeSimple");
    assert_eq!(EntityID::SlimeCold.to_string(), "SlimeCold");
    assert_eq!(EntityID::SlimeFire.to_string(), "SlimeFire");
}

#[test]
fn background_names() {
    assert_eq!(BackgroundID::Jungle.to_string(), "Jungle");
}

#[test]
fn direction_rows() {
    assert_eq!(Directions::Down.row(), 0);
    assert_eq!(Directions::Up.row(), 1);
    assert_eq!(Directions::Left.row(), 2);
    assert_eq!(Directions::Right.row(), 3);
}

#[test]
fn components_are_plain_values() {
    let e = Entity(7);
    assert_eq!(e, Entity(7));
    assert_ne!(e, Entity(8));
    let h = Health { current: 100 };
    assert_eq!(h.clone().current, 100);
    assert_ne!(RenderLayer::Surface, RenderLayer::Entity);
    let _marker = PlayerInput;
    assert_ne!(
        multidevice::game::tally::Action::Move,
        multidevice::game::tally::Action::Healt
    );
}

#[test]
fn unicode_white_space_is_trimmed() {
    assert_eq!(parse_action("\u{3000}attack\u{a0}\u{2003}"), Some(Action::Attack));
    assert_eq!(parse_action("\u{85}\u{1680}die\u{2028}\u{2029}\u{202f}\u{205f}"), Some(Action::Die));
    assert_eq!(parse_action("\u{b}\u{c}heal\r"), Some(Action::Heal));
    assert_eq!(parse_action("\u{200b}attack"), None);
    assert_eq!(parse_action("attack\u{180e}"), None);
    assert_eq!(parse_action("att ack"), None);
}
