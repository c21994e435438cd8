use std::marker::PhantomData;

use autofingers::accessor::{
    Accessor, FocusingOnFirst, IdentM, Marker, Name, NameTrait, RefM, Transformable, Unfocused,
};
use autofingers::expr::{undef, BinaryOp, Fix, GetType, Term, UnaryOp};
use autofingers::focus::{FocusMapOp, FocusOp, IdentT, Path, RebuildFromFocus, Tag};
use autofingers::introspect::{wrap, Direct, OpNot, Phantom, Undef, Value, Wrap};
use autofingers::methods::{
    example, example_constant, hint, CallOwn, CommonImpls, ConstParamTest, DebugMsg, Equal,
    GenConstRefStaticStr, GenConstUSize, GenType, ICons, Key, Lookup, Method, Nil,
};
use autofingers::optics::{
    compose, ActiveStatusPrism, Address, AddressLens, AgeLens, CityLens, Lens, NameLens, Prism,
    Status, StreetLens, User,
};
use autofingers::pi::{Bind, Chan, Comm, Eval, Name as PiName, Process, Recv, Same, Send};
use autofingers::repr::{new_apply, new_lambda, repr, Meta, Node, Repr, ReprTrait};

#[test]
fn test_mapping() {
    type IdentityType = IdentM<i32>;

    let value = 42;
    let mapping_fn = |x: i32| x * 2;

    let result = IdentityType::mapping(mapping_fn, value);
    assert_eq!(result, 84);
}

#[test]
fn test_complex_transformation() {
    type BaseType = IdentM<(u8, u32)>;
    type RefType = RefM<BaseType>;

    let value = (1_u8, 2_u32);
    let reference = &value;

    let transformed = RefType::mapping(|x| &x.0, reference);
    assert_eq!(*transformed, 1_u8);
}

#[test]
fn test_marker() {
    type MarkerType = Marker<FocusingOnFirst, (u8, u16)>;

    let value = Marker::<Unfocused, _>((1_u8, 2_u16), PhantomData);

    let transformed = MarkerType::mapping(|x| Marker((x.0 .0 + 2, x.0 .1), x.1), value);
    assert_eq!(transformed.0 .0, 3_u8);
}

#[test]
fn test_example() {
    let call: CallOwn<()> = CallOwn((), hint());
    call.call_once((GenConstUSize(234), 123_u64, 321_u32));
}

#[test]
fn accessor_names_and_rotation() {
    assert_eq!(IdentM::<u8>::id().name(), "Ident");
    assert_eq!(RefM::<IdentM<u8>>::id().0, "Ref");
    assert_eq!(Marker::<FocusingOnFirst, (u8, u8)>::id().0, "Marker of pair");
    assert_eq!(Name("x").name(), "x");
    let m = Marker::<Unfocused, (u8, u16)>((7, 8), PhantomData);
    let r = <Marker<FocusingOnFirst, (u8, u16)> as Transformable>::rotate(m);
    assert_eq!(r.0, (7, 8));
    let back = <Marker<FocusingOnFirst, (u8, u16)> as Transformable>::restore(r);
    assert_eq!(back.0, (7, 8));
}

#[test]
fn example_hint_looks_up_the_constant() {
    let args = (GenConstUSize(234), 123_u64, 321_u32);
    assert_eq!(example_constant(&args), 234);
    let h = <() as Method>::hint(&args);
    assert_eq!(h.lookup_usize(Key::A), 234);
    assert_eq!(h.lookup_usize(Key::B), 0);
    assert_eq!(h.lookup_str(Key::C), "");
    assert!(matches!(example((), Nil), Nil));
}

#[test]
fn lookup_takes_the_first_entry_for_a_key() {
    let list = ICons {
        key: Key::B,
        gen: GenConstRefStaticStr("first"),
        tail: ICons {
            key: Key::B,
            gen: GenConstUSize(9),
            tail: ICons { key: Key::A, gen: GenConstUSize(5), tail: Nil },
        },
    };
    assert_eq!(list.lookup_str(Key::B), "first");
    assert_eq!(list.lookup_usize(Key::B), 0);
    assert_eq!(list.lookup_usize(Key::A), 5);
    assert_eq!(list.lookup_usize(Key::C), 0);
    assert_eq!(list.str_value(), "first");
    assert_eq!(<DebugMsg as ConstParamTest<_>>::msg(&list), "first");
    assert_eq!(<DebugMsg as ConstParamTest<Nil>>::msg(&Nil), "");
    assert!(Key::A.equal(&Key::A));
    assert!(!Key::A.equal(&Key::C));
    let t = ICons { key: Key::C, gen: GenType { name: "T" }, tail: Nil };
    assert_eq!(t.usize_value(), 0);
}

#[test]
fn tag_focus_map_and_rebuild() {
    let tag = Tag { name: "test".to_string(), value: 123_usize };
    assert_eq!(Tag::<usize>::ident().ident(), "Tag");
    assert_eq!(Tag::<usize>::name_path().path_name(), "name");
    let focus = tag.focus();
    assert_eq!(focus.focus_ref(), "test");
    let mapped = focus.focus_map(|x| x + "2");
    assert_eq!(mapped.focus_ref(), "test2");
    let rebuilt: Tag<usize> = mapped.rebuild_from_focus();
    assert_eq!(rebuilt.name, "test2");
    assert_eq!(rebuilt.value, 123);
}

#[test]
fn focus_mut_replaces_and_take_returns() {
    let mut focus = Tag { name: "a".to_string(), value: 1_u8 }.focus();
    let old = focus.focus_mut("b".to_string());
    assert_eq!(old, "a");
    assert_eq!(focus.focus_take(), "b");
}

fn user() -> User {
    User {
        name: "John".to_string(),
        age: 30,
        address: Address { city: "New York".to_string(), street: "Broadway".to_string() },
    }
}

#[test]
fn lenses_get_and_set() {
    let u = user();
    assert_eq!(NameLens.get(&u), "John");
    assert_eq!(*AgeLens.get(&u), 30);
    assert_eq!(StreetLens.get(AddressLens.get(&u)), "Broadway");
    let u = NameLens.set(u, "Jack".to_string());
    assert_eq!(u.name, "Jack");
    let u = AgeLens.set(u, 31);
    assert_eq!(u.age, 31);
    assert_eq!(u.address.city, "New York");
}

#[test]
fn composed_lens_reaches_the_city() {
    let u = user();
    let city = compose::<_, _, Address>(AddressLens, CityLens);
    assert_eq!(city.get(&u), "New York");
    let city = compose::<_, _, Address>(AddressLens, CityLens);
    let u = city.set(u, "Boston".to_string());
    assert_eq!(u.address.city, "Boston");
    assert_eq!(u.address.street, "Broadway");
    assert_eq!(u.name, "John");
}

#[test]
fn prism_previews_active_only() {
    let active = Status::Active("online".to_string());
    assert_eq!(ActiveStatusPrism.preview(&active).map(|s| s.as_str()), Some("online"));
    assert!(ActiveStatusPrism.preview(&Status::Inactive).is_none());
    match ActiveStatusPrism.review("busy".to_string()) {
        Status::Active(s) => assert_eq!(s, "busy"),
        Status::Inactive => panic!("review gave an inactive status"),
    }
}

fn leaf(t: &Term) -> String {
    format!("{:?}", t)
}

#[test]
fn tracked_expression_records_operations() {
    let a = undef();
    let b = Fix(a).binary(BinaryOp::Add, 123_i32);
    let c = undef();
    let d = Fix(Fix(b).binary(BinaryOp::BitXor, c)).binary(BinaryOp::Sub, 1_i32).neg();
    let five = Fix(2_i32).binary_plain(BinaryOp::Add, 3_i32).unwrap();
    assert_eq!(five, 5);
    let e = Fix(five).binary_tracked(BinaryOp::Add, d);
    match e.term {
        Term::Binary(BinaryOp::Add, l, r) => {
            assert_eq!(leaf(&l), "Value(5)");
            match *r {
                Term::Unary(UnaryOp::Neg, inner) => match *inner {
                    Term::Binary(BinaryOp::Sub, x, one) => {
                        assert_eq!(leaf(&one), "Value(1)");
                        assert!(matches!(*x, Term::Binary(BinaryOp::BitXor, _, _)));
                    }
                    other => panic!("unexpected {:?}", other),
                },
                other => panic!("unexpected {:?}", other),
            }
        }
        other => panic!("unexpected {:?}", other),
    }
}

#[test]
fn plain_operations_compute_or_refuse() {
    assert_eq!(Fix(7_i32).binary_plain(BinaryOp::Mul, 6), Some(42));
    assert_eq!(Fix(7_i32).binary_plain(BinaryOp::Div, 0), None);
    assert_eq!(Fix(-7_i32).binary_plain(BinaryOp::Div, 2), Some(-3));
    assert_eq!(Fix(-7_i32).binary_plain(BinaryOp::Rem, 2), Some(-1));
    assert_eq!(Fix(i32::MAX).binary_plain(BinaryOp::Add, 1), None);
    assert_eq!(Fix(i32::MIN).binary_plain(BinaryOp::Div, -1), None);
    assert_eq!(Fix(1_i32).binary_plain(BinaryOp::Shl, 4), Some(16));
    assert_eq!(Fix(1_i32).binary_plain(BinaryOp::Shl, 32), None);
    assert_eq!(Fix(-16_i32).binary_plain(BinaryOp::Shr, 2), Some(-4));
    assert_eq!(Fix(0b1100_i32).binary_plain(BinaryOp::BitAnd, 0b1010), Some(0b1000));
    assert_eq!(Fix(0b1100_i32).binary_plain(BinaryOp::BitOr, 0b1010), Some(0b1110));
    assert_eq!(Fix(0b1100_i32).binary_plain(BinaryOp::BitXor, 0b1010), Some(0b0110));
    assert_eq!(Fix(3_i32).binary_plain(BinaryOp::Sub, 5), Some(-2));
    assert!(matches!(undef().not().term, Term::Unary(UnaryOp::Not, _)));
    assert!(matches!(4_i32.into_term(), Term::Value(4)));
}

#[test]
fn repr_builds_nodes() {
    let a = Repr::value(123);
    let b = Repr::undef();
    let c = a.add(b).not();
    assert_eq!(c.node.name(), "Not");
    assert_eq!(c.node.deps.len(), 1);
    assert_eq!(c.node.deps[0].name, "Add");
    assert_eq!(c.node.deps[0].deps[0].name, "Value");
    assert_eq!(c.node.deps[0].deps[1].name, "Undef");
    assert_eq!(c.inner, vec![Some(123), None]);
    let lam = new_lambda(|x: i32| !x, Node { name: "Value", deps: Vec::new() });
    assert_eq!((lam.f)(0), -1);
    let e = new_apply(lam, c.repr());
    assert_eq!(e.node.name, "Apply");
    assert_eq!(e.node.deps[0].name, "Lambda");
    assert_eq!(e.node.deps[0].deps[0].name, "Value");
    assert_eq!(e.node.deps[1].name, "Not");
    assert_eq!(e.inner, vec![Some(123), None]);
    let r = repr(Node { name: "Value", deps: Vec::new() }, vec![Some(1)]);
    assert_eq!(r.inner, vec![Some(1)]);
}

fn send(c: u64, m: u64) -> Process {
    Process::Send(Send { chan: Chan(c), msg: Chan(m) })
}

fn recv(c: u64, v: u64, body: Process) -> Process {
    Process::Recv(Recv { chan: Chan(c), var: Chan(v), body: Box::new(body) })
}

fn comm(l: Process, r: Process) -> Process {
    Process::Comm(Comm { left: Box::new(l), right: Box::new(r) })
}

#[test]
fn pi_send_meets_receive() {
    let (a, b, c) = (1, 2, 3);
    let p = comm(send(a, b), comm(Process::Nil, recv(a, c, comm(Process::Nil, send(c, c)))));
    let (ok, q) = p.eval();
    assert!(ok);
    assert_eq!(
        format!("{:?}", q),
        format!("{:?}", comm(comm(Process::Nil, send(b, b)), Process::Nil))
    );
}

#[test]
fn pi_mismatched_channels_do_not_step() {
    let p = comm(send(1, 2), recv(4, 3, send(3, 3)));
    let before = format!("{:?}", p);
    let (ok, q) = p.eval();
    assert!(!ok);
    assert_eq!(format!("{:?}", q), before);
    let (ok, q) = comm(recv(5, 3, send(3, 3)), send(5, 9)).eval();
    assert!(ok);
    assert_eq!(format!("{:?}", q), format!("{:?}", send(9, 9)));
    let (ok, _) = Send { chan: Chan(1), msg: Chan(1) }.eval();
    assert!(!ok);
    assert!(Process::Nil.eval().0);
}

#[test]
fn pi_bind_substitutes_every_occurrence() {
    let (ok, q) = Bind { value: Chan(7), var: Chan(3), body: recv(3, 3, comm(send(3, 1), send(2, 3))) }
        .eval();
    assert!(ok);
    assert_eq!(
        format!("{:?}", q),
        format!("{:?}", recv(7, 7, comm(send(7, 1), send(2, 7))))
    );
    assert!(Chan(3).same(&Chan(3)));
    assert!(!Chan(3).same(&Chan(4)));
    assert_eq!(Chan(6).id(), 6);
    let (ok, _) = Comm { left: Box::new(send(1, 1)), right: Box::new(Process::Nil) }.eval();
    assert!(!ok);
}

#[test]
fn pi_send_tries_second_of_pair() {
    let p = comm(send(1, 8), comm(send(2, 2), recv(1, 5, send(5, 5))));
    let (ok, q) = p.eval();
    assert!(ok);
    assert_eq!(format!("{:?}", q), format!("{:?}", comm(send(8, 8), send(2, 2))));
}

#[test]
fn wrap_keeps_values_only_for_known_representations() {
    assert_eq!(wrap::<Value<i32>, i32>(5), 5);
    let _marker: PhantomData<Box<i32>> = wrap::<Undef<i32>, i32>(5);
    assert_eq!(<Direct as Wrap<&str>>::wrap("x"), "x");
    let _p: PhantomData<Box<u8>> = <Phantom as Wrap<u8>>::wrap(1);
    assert_eq!(Value(3).not().0 .0, 3);
    let _n = Undef::<u8>(PhantomData).not();
}
