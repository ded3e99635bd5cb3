use rubicross::button::{ButtonEvent, ButtonId, ButtonLook, ButtonState, PointerEvent};
use rubicross::collection::Manipulation;
use rubicross::game::{handle_events, next_shuffle_index, shuffle_manipulation, ANIMATION_LENGTH, SHUFFLE_CHOICES};
use rubicross::initialization::initialize_pieces;
use rubicross::path::initialize_paths;
use rubicross::position::Square;
use rubicross::{ControlEvent, ControlId};

#[test]
fn button_reports_one_press_while_hovered() {
    let mut button = ButtonState::new(ButtonId::VerticalUp(4));
    let mut events = vec![];
    button.handle_event(&PointerEvent::Pressed, &mut events);
    assert!(events.is_empty());
    button.handle_event(&PointerEvent::Moved { inside: true }, &mut events);
    assert_eq!(button.look(false), ButtonLook::Hover);
    button.handle_event(&PointerEvent::Pressed, &mut events);
    button.handle_event(&PointerEvent::Pressed, &mut events);
    assert_eq!(events, vec![ButtonEvent::Pressed(ButtonId::VerticalUp(4))]);
    button.handle_event(&PointerEvent::Moved { inside: false }, &mut events);
    assert!(!button.pressed);
    assert_eq!(button.look(false), ButtonLook::Idle);
    assert_eq!(button.look(true), ButtonLook::Hover);
    button.handle_event(&PointerEvent::Moved { inside: true }, &mut events);
    button.handle_event(&PointerEvent::Pressed, &mut events);
    button.handle_event(&PointerEvent::Released, &mut events);
    assert_eq!(events.len(), 2);
    assert_eq!(button.id(), ButtonId::VerticalUp(4));
}

#[test]
fn pressed_look_shows_when_not_hovered() {
    let button = ButtonState { id: ButtonId::HorizontalLeft(3), hovered: false, pressed: true };
    assert_eq!(button.look(false), ButtonLook::Pressed);
}

#[test]
fn button_ids_map_to_moves() {
    assert_eq!(ButtonId::HorizontalLeft(3).manipulation(), Manipulation::SlideLeft(3));
    assert_eq!(ButtonId::HorizontalRight(4).manipulation(), Manipulation::SlideRight(4));
    assert_eq!(ButtonId::VerticalUp(5).manipulation(), Manipulation::SlideUp(5));
    assert_eq!(ButtonId::VerticalDown(3).manipulation(), Manipulation::SlideDown(3));
    assert_eq!(ButtonId::RotateClockwise(2).manipulation(), Manipulation::RotateClockwise(2));
    assert_eq!(ButtonId::RotateAnticlockwise(0).manipulation(), Manipulation::RotateAnticlockwise(0));
    assert!(ButtonId::RotateClockwise(1).is_rotational());
    assert!(!ButtonId::VerticalDown(4).is_rotational());
}

#[test]
fn handle_events_makes_each_move_in_order() {
    let table = initialize_paths();
    let mut pieces = initialize_pieces(&table);
    let events = [
        ButtonEvent::Pressed(ButtonId::HorizontalRight(4)),
        ButtonEvent::Pressed(ButtonId::HorizontalLeft(4)),
    ];
    handle_events(&events, &mut pieces, 0);
    let anim = pieces.pieces()[22].animation().unwrap();
    assert_eq!(anim.movement_time, ANIMATION_LENGTH);
    let events = pieces.update(ANIMATION_LENGTH);
    assert!(events.is_empty());
    assert!(pieces.is_solved());
    assert!(pieces.is_square_solved(&Square::Center));
}

#[test]
fn shuffle_refuses_repeating_or_undoing_the_last_move() {
    assert_eq!(next_shuffle_index(None, 40), Some(4));
    assert_eq!(next_shuffle_index(Some(5), 40), None);
    assert_eq!(next_shuffle_index(Some(4), 22), None);
    assert_eq!(next_shuffle_index(Some(6), 22), Some(4));
    assert_eq!(shuffle_manipulation(0), Manipulation::RotateClockwise(0));
    assert_eq!(shuffle_manipulation(11), Manipulation::SlideRight(5));
    assert_eq!(shuffle_manipulation(SHUFFLE_CHOICES - 1), Manipulation::SlideDown(5));
}

#[test]
fn control_events_carry_their_id() {
    let event = ControlEvent::Pressed(ControlId::RotateClockwise(2));
    assert!(matches!(event, ControlEvent::Pressed(ControlId::RotateClockwise(2))));
}
