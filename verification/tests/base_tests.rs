use hitokage_core::base::{Align, Base, BaseEffect, BaseMsgHook, BaseProps};
use hitokage_core::css_class::CssClass;
use std::sync::mpsc::channel;

fn strings(words: &[&str]) -> Vec<String> {
    words.iter().map(|w| w.to_string()).collect()
}

fn props() -> BaseProps {
    BaseProps {
        class: Some(CssClass::Str("a b a".to_string())),
        halign: Some(Align::Center),
        hexpand: None,
        valign: None,
        vexpand: Some(true),
    }
}

#[test]
fn align_defaults_to_fill() {
    assert_eq!(Align::default(), Align::Fill);
}

#[test]
fn base_from_props_normalizes_classes() {
    let base = Base::from_props(props());
    assert_eq!(base.classes, strings(&["a", "b"]));
    assert_eq!(base.halign, Some(Align::Center));
    assert_eq!(base.hexpand, None);
    assert_eq!(base.valign, None);
    assert_eq!(base.vexpand, Some(true));
}

#[test]
fn base_without_class_has_none() {
    let base = Base::from_props(BaseProps { class: None, halign: None, hexpand: None, valign: None, vexpand: None });
    assert!(base.classes.is_empty());
}

#[test]
fn set_class_puts_widget_name_first() {
    let mut base = Base::from_props(props());
    match base.update("clock", BaseMsgHook::SetClass(strings(&["x y", "clock", "x"]))) {
        BaseEffect::SetCssClasses(v) => assert_eq!(v, strings(&["clock", "x", "y"])),
        other => panic!("unexpected effect {:?}", other),
    }
    assert_eq!(base.classes, strings(&["clock", "x", "y"]));
}

#[test]
fn get_class_answers_current_classes() {
    let mut base = Base::from_props(props());
    let (tx, rx) = channel();
    match base.update("clock", BaseMsgHook::GetClass(tx)) {
        BaseEffect::SendClasses(t, v) => t.send(v).unwrap(),
        other => panic!("unexpected effect {:?}", other),
    }
    assert_eq!(rx.recv().unwrap(), strings(&["a", "b"]));
}

#[test]
fn read_after_write_of_alignment() {
    let mut base = Base::from_props(props());
    match base.update("label", BaseMsgHook::SetValign(Align::End)) {
        BaseEffect::SetValign(a) => assert_eq!(a, Align::End),
        other => panic!("unexpected effect {:?}", other),
    }
    let (tx, _rx) = channel();
    match base.update("label", BaseMsgHook::GetValign(tx)) {
        BaseEffect::SendValign(_, v) => assert_eq!(v, Some(Align::End)),
        other => panic!("unexpected effect {:?}", other),
    }
}

#[test]
fn read_after_write_of_expansion() {
    let mut base = Base::from_props(props());
    base.update("label", BaseMsgHook::SetHexpand(Some(false)));
    base.update("label", BaseMsgHook::SetVexpand(None));
    let (tx, _rx) = channel();
    match base.update("label", BaseMsgHook::GetHexpand(tx)) {
        BaseEffect::SendHexpand(_, v) => assert_eq!(v, Some(false)),
        other => panic!("unexpected effect {:?}", other),
    }
    let (tx, _rx) = channel();
    match base.update("label", BaseMsgHook::GetVexpand(tx)) {
        BaseEffect::SendVexpand(_, v) => assert_eq!(v, None),
        other => panic!("unexpected effect {:?}", other),
    }
}

#[test]
fn unset_alignment_is_answered_with_none() {
    let mut base = Base::from_props(props());
    let (tx, _rx) = channel();
    match base.update("label", BaseMsgHook::GetValign(tx)) {
        BaseEffect::SendValign(_, v) => assert_eq!(v, None),
        other => panic!("unexpected effect {:?}", other),
    }
    let (tx, _rx) = channel();
    match base.update("label", BaseMsgHook::GetHalign(tx)) {
        BaseEffect::SendHalign(_, v) => assert_eq!(v, Some(Align::Center)),
        other => panic!("unexpected effect {:?}", other),
    }
}

#[test]
fn initial_effects_in_order() {
    let base = Base::from_props(props());
    let effects = base.initial_effects();
    assert_eq!(effects.len(), 3);
    assert!(matches!(effects[0], BaseEffect::SetHalign(Align::Center)));
    assert!(matches!(effects[1], BaseEffect::SetHexpand(None)));
    assert!(matches!(effects[2], BaseEffect::SetVexpand(Some(true))));
}

#[test]
fn setting_the_same_classes_twice_is_setting_them_once() {
    let mut base = Base::from_props(props());
    base.update("box", BaseMsgHook::SetClass(strings(&["p q", "p"])));
    let once = base.classes.clone();
    base.update("box", BaseMsgHook::SetClass(strings(&["p q", "p"])));
    assert_eq!(base.classes, once);
    assert_eq!(once, strings(&["box", "p", "q"]));
}
