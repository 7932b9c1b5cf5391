//! The properties every widget shares, and how a widget answers the hooks that read
//! and change them.
use crate::css_class::{class_list, dedup, prepend_css_class_list, CssClass};
use crate::index_set::views;
use std::sync::mpsc::Sender;
use vstd::prelude::*;

verus! {

#[verifier::external_type_specification]
#[verifier::external_body]
#[verifier::reject_recursive_types(T)]
pub struct ExSender<T>(Sender<T>);

/// How a widget is aligned along one axis.
#[derive(Debug, Clone, Copy, PartialEq, Eq, Structural)]
pub enum Align {
    Fill,
    Start,
    End,
    Center,
    Baseline,
    __Unknown(i32),
}

impl Default for Align {
    /// Widgets fill their space unless aligned otherwise.
    fn default() -> (a: Self)
        ensures
            a == Align::Fill,
    {
        Align::Fill
    }
}

/// The shared properties as configured.
#[derive(Debug)]
pub struct BaseProps {
    pub class: Option<CssClass>,
    pub halign: Option<Align>,
    pub hexpand: Option<bool>,
    pub valign: Option<Align>,
    pub vexpand: Option<bool>,
}

/// The shared properties of a live widget.
#[derive(Debug)]
pub struct Base {
    pub classes: Vec<String>,
    pub halign: Option<Align>,
    pub hexpand: Option<bool>,
    pub valign: Option<Align>,
    pub vexpand: Option<bool>,
}

/// A request from a script to read or change a shared property of a widget.
#[derive(Debug)]
pub enum BaseMsgHook {
    GetClass(Sender<Vec<String>>),
    SetClass(Vec<String>),
    GetHalign(Sender<Align>),
    SetHalign(Align),
    GetHexpand(Sender<bool>),
    SetHexpand(Option<bool>),
    GetValign(Sender<Align>),
    SetValign(Align),
    GetVexpand(Sender<bool>),
    SetVexpand(Option<bool>),
}

/// What the widget's root has to do, or what has to be answered, after a hook.
/// A reply with `None` is answered with the root's own value.
#[derive(Debug)]
pub enum BaseEffect {
    SendClasses(Sender<Vec<String>>, Vec<String>),
    SendHalign(Sender<Align>, Option<Align>),
    SendHexpand(Sender<bool>, Option<bool>),
    SendValign(Sender<Align>, Option<Align>),
    SendVexpand(Sender<bool>, Option<bool>),
    SetCssClasses(Vec<String>),
    SetHalign(Align),
    SetHexpand(Option<bool>),
    SetValign(Align),
    SetVexpand(Option<bool>),
}

/// The classes a widget named `css_name` has after a script sets `classes`: its own name
/// first, then the words of `classes`, each once.
pub open spec fn classes_after_set(css_name: Seq<char>, classes: Seq<Seq<char>>) -> Seq<Seq<char>> {
    dedup(seq![css_name] + crate::css_class::flat_split(classes))
}

/// The horizontal alignment after a hook: set by `SetHalign`, kept by any other.
pub open spec fn halign_after(current: Option<Align>, hook: BaseMsgHook) -> Option<Align> {
    match hook {
        BaseMsgHook::SetHalign(a) => Some(a),
        _ => current,
    }
}

/// Whether the widget expands horizontally after a hook.
pub open spec fn hexpand_after(current: Option<bool>, hook: BaseMsgHook) -> Option<bool> {
    match hook {
        BaseMsgHook::SetHexpand(e) => e,
        _ => current,
    }
}

/// The vertical alignment after a hook.
pub open spec fn valign_after(current: Option<Align>, hook: BaseMsgHook) -> Option<Align> {
    match hook {
        BaseMsgHook::SetValign(a) => Some(a),
        _ => current,
    }
}

/// Whether the widget expands vertically after a hook.
pub open spec fn vexpand_after(current: Option<bool>, hook: BaseMsgHook) -> Option<bool> {
    match hook {
        BaseMsgHook::SetVexpand(e) => e,
        _ => current,
    }
}

/// The classes of a widget named `css_name` after a hook.
pub open spec fn classes_after(current: Seq<Seq<char>>, css_name: Seq<char>, hook: BaseMsgHook) -> Seq<Seq<char>> {
    match hook {
        BaseMsgHook::SetClass(classes) => classes_after_set(css_name, views(classes@)),
        _ => current,
    }
}

/// A copy of a list of strings.
pub fn copy_strings(v: &Vec<String>) -> (out: Vec<String>)
    ensures
        views(out@) == views(v@),
{
    let mut out: Vec<String> = Vec::new();
    let mut i: usize = 0;
    while i < v.len()
        invariant
            0 <= i <= v.len(),
            views(out@) == views(v@).take(i as int),
        decreases v.len() - i,
    {
        let ghost before = out@;
        out.push(v[i].clone());
        assert(views(out@) =~= views(before).push(v@[i as int]@));
        assert(views(v@).take(i + 1) =~= views(v@).take(i as int).push(v@[i as int]@));
        i = i + 1;
    }
    assert(views(v@).take(v.len() as int) =~= views(v@));
    out
}

impl Base {
    /// The live properties of configured ones: the classes are those of the configured
    /// list (none if none is configured), the rest is taken as it is.
    pub fn from_props(props: BaseProps) -> (base: Base)
        ensures
            views(base.classes@) == (match props.class {
                Some(c) => class_list(c),
                None => Seq::<Seq<char>>::empty(),
            }),
            base.halign == props.halign,
            base.hexpand == props.hexpand,
            base.valign == props.valign,
            base.vexpand == props.vexpand,
    {
        let class = match props.class {
            Some(c) => c,
            None => CssClass::default(),
        };
        Base {
            classes: class.into_classes(),
            halign: props.halign,
            hexpand: props.hexpand,
            valign: props.valign,
            vexpand: props.vexpand,
        }
    }

    /// Answers a hook on a widget named `css_name`: a read is answered from the stored
    /// property (left to the root where none is stored), a write is stored and handed on
    /// to the root.
    pub fn update(&mut self, css_name: &str, hook: BaseMsgHook) -> (effect: BaseEffect)
        ensures
            views(final(self).classes@) == classes_after(views(old(self).classes@), css_name@, hook),
            final(self).halign == halign_after(old(self).halign, hook),
            final(self).hexpand == hexpand_after(old(self).hexpand, hook),
            final(self).valign == valign_after(old(self).valign, hook),
            final(self).vexpand == vexpand_after(old(self).vexpand, hook),
            match hook {
                BaseMsgHook::GetClass(tx) => {
                    &&& effect matches BaseEffect::SendClasses(t, v) && t == tx && views(v@) == views(
                        old(self).classes@,
                    )
                    &&& views(final(self).classes@) == views(old(self).classes@)
                    &&& final(self).halign == old(self).halign && final(self).hexpand == old(self).hexpand
                    &&& final(self).valign == old(self).valign && final(self).vexpand == old(self).vexpand
                },
                BaseMsgHook::SetClass(classes) => {
                    &&& views(final(self).classes@) == classes_after_set(css_name@, views(classes@))
                    &&& effect matches BaseEffect::SetCssClasses(v) && views(v@) == views(
                        final(self).classes@,
                    )
                    &&& final(self).halign == old(self).halign && final(self).hexpand == old(self).hexpand
                    &&& final(self).valign == old(self).valign && final(self).vexpand == old(self).vexpand
                },
                BaseMsgHook::GetHalign(tx) => {
                    &&& effect == BaseEffect::SendHalign(tx, old(self).halign)
                    &&& *final(self) == *old(self)
                },
                BaseMsgHook::SetHalign(a) => {
                    &&& effect == BaseEffect::SetHalign(a)
                    &&& *final(self) == (Base { halign: Some(a), ..*old(self) })
                },
                BaseMsgHook::GetHexpand(tx) => {
                    &&& effect == BaseEffect::SendHexpand(tx, old(self).hexpand)
                    &&& *final(self) == *old(self)
                },
                BaseMsgHook::SetHexpand(e) => {
                    &&& effect == BaseEffect::SetHexpand(e)
                    &&& *final(self) == (Base { hexpand: e, ..*old(self) })
                },
                BaseMsgHook::GetValign(tx) => {
                    &&& effect == BaseEffect::SendValign(tx, old(self).valign)
                    &&& *final(self) == *old(self)
                },
                BaseMsgHook::SetValign(a) => {
                    &&& effect == BaseEffect::SetValign(a)
                    &&& *final(self) == (Base { valign: Some(a), ..*old(self) })
                },
                BaseMsgHook::GetVexpand(tx) => {
                    &&& effect == BaseEffect::SendVexpand(tx, old(self).vexpand)
                    &&& *final(self) == *old(self)
                },
                BaseMsgHook::SetVexpand(e) => {
                    &&& effect == BaseEffect::SetVexpand(e)
                    &&& *final(self) == (Base { vexpand: e, ..*old(self) })
                },
            },
    {
        match hook {
            BaseMsgHook::GetClass(tx) => BaseEffect::SendClasses(tx, copy_strings(&self.classes)),
            BaseMsgHook::SetClass(classes) => {
                let new_classes = prepend_css_class_list(css_name, CssClass::Vec(classes));
                let reply = copy_strings(&new_classes);
                self.classes = new_classes;
                BaseEffect::SetCssClasses(reply)
            },
            BaseMsgHook::GetHalign(tx) => BaseEffect::SendHalign(tx, self.halign),
            BaseMsgHook::SetHalign(a) => {
                self.halign = Some(a);
                BaseEffect::SetHalign(a)
            },
            BaseMsgHook::GetHexpand(tx) => BaseEffect::SendHexpand(tx, self.hexpand),
            BaseMsgHook::SetHexpand(e) => {
                self.hexpand = e;
                BaseEffect::SetHexpand(e)
            },
            BaseMsgHook::GetValign(tx) => BaseEffect::SendValign(tx, self.valign),
            BaseMsgHook::SetValign(a) => {
                self.valign = Some(a);
                BaseEffect::SetValign(a)
            },
            BaseMsgHook::GetVexpand(tx) => BaseEffect::SendVexpand(tx, self.vexpand),
            BaseMsgHook::SetVexpand(e) => {
                self.vexpand = e;
                BaseEffect::SetVexpand(e)
            },
        }
    }

    /// What the root is told when the widget is created: its alignments where they are
    /// configured, and for each axis whether and how it expands.
    pub fn initial_effects(&self) -> (effects: Vec<BaseEffect>)
        ensures
            effects@ == (match self.halign {
                Some(a) => seq![BaseEffect::SetHalign(a)],
                None => Seq::empty(),
            }) + seq![BaseEffect::SetHexpand(self.hexpand)] + (match self.valign {
                Some(a) => seq![BaseEffect::SetValign(a)],
                None => Seq::empty(),
            }) + seq![BaseEffect::SetVexpand(self.vexpand)],
    {
        let mut effects: Vec<BaseEffect> = Vec::new();
        if let Some(a) = self.halign {
            effects.push(BaseEffect::SetHalign(a));
        }
        effects.push(BaseEffect::SetHexpand(self.hexpand));
        if let Some(a) = self.valign {
            effects.push(BaseEffect::SetValign(a));
        }
        effects.push(BaseEffect::SetVexpand(self.vexpand));
        assert(effects@ =~= (match self.halign {
            Some(a) => seq![BaseEffect::SetHalign(a)],
            None => Seq::empty(),
        }) + seq![BaseEffect::SetHexpand(self.hexpand)] + (match self.valign {
            Some(a) => seq![BaseEffect::SetValign(a)],
            None => Seq::empty(),
        }) + seq![BaseEffect::SetVexpand(self.vexpand)]);
        effects
    }
}

/// A script that sets a property and then reads it gets back what it set: each write is
/// stored, and a read changes nothing.
pub proof fn law_read_after_write(
    css_name: Seq<char>,
    classes: Seq<Seq<char>>,
    halign: Option<Align>,
    hexpand: Option<bool>,
    valign: Option<Align>,
    vexpand: Option<bool>,
    new_classes: Vec<String>,
    new_halign: Align,
    new_hexpand: Option<bool>,
    new_valign: Align,
    new_vexpand: Option<bool>,
    class_tx: Sender<Vec<String>>,
    align_tx: Sender<Align>,
    expand_tx: Sender<bool>,
)
    ensures
        classes_after(classes, css_name, BaseMsgHook::SetClass(new_classes)) == classes_after_set(
            css_name,
            views(new_classes@),
        ),
        halign_after(halign, BaseMsgHook::SetHalign(new_halign)) == Some(new_halign),
        hexpand_after(hexpand, BaseMsgHook::SetHexpand(new_hexpand)) == new_hexpand,
        valign_after(valign, BaseMsgHook::SetValign(new_valign)) == Some(new_valign),
        vexpand_after(vexpand, BaseMsgHook::SetVexpand(new_vexpand)) == new_vexpand,
        classes_after(classes, css_name, BaseMsgHook::GetClass(class_tx)) == classes,
        halign_after(halign, BaseMsgHook::GetHalign(align_tx)) == halign,
        hexpand_after(hexpand, BaseMsgHook::GetHexpand(expand_tx)) == hexpand,
        valign_after(valign, BaseMsgHook::GetValign(align_tx)) == valign,
        vexpand_after(vexpand, BaseMsgHook::GetVexpand(expand_tx)) == vexpand,
{
}

/// Setting the classes twice to the same list gives the same classes as setting them once.
pub proof fn law_set_class_idempotent(css_name: Seq<char>, current: Seq<Seq<char>>, new_classes: Vec<String>)
    ensures
        classes_after(
            classes_after(current, css_name, BaseMsgHook::SetClass(new_classes)),
            css_name,
            BaseMsgHook::SetClass(new_classes),
        ) == classes_after(current, css_name, BaseMsgHook::SetClass(new_classes)),
{
}

} // verus!
