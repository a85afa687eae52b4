use webview_official::call::{plan, NativeCall, Op};
use webview_official::codec::encode;
use webview_official::error::Error;
use webview_official::lifecycle::{Control, Navigation};
use webview_official::size_hint::{SizeHint, Window};

fn bytes(s: &str) -> Vec<u8> {
    let mut b = s.as_bytes().to_vec();
    b.push(0);
    b
}

fn weak_ops() -> Vec<Op> {
    vec![
        Op::Terminate,
        Op::Dispatch,
        Op::Bind("greet".to_string()),
        Op::GetWindow,
        Op::Return("1".to_string(), 0, "\"ok\"".to_string()),
    ]
}

#[test]
fn size_hint_wire_values() {
    assert_eq!(SizeHint::NONE.to_wire(), 0);
    assert_eq!(SizeHint::MIN.to_wire(), 1);
    assert_eq!(SizeHint::MAX.to_wire(), 2);
    assert_eq!(SizeHint::FIXED.to_wire(), 3);
}

#[test]
fn size_hint_round_trip() {
    for h in [SizeHint::NONE, SizeHint::MIN, SizeHint::MAX, SizeHint::FIXED] {
        assert_eq!(SizeHint::from_wire(h.to_wire()), Some(h));
    }
    assert_eq!(SizeHint::from_wire(4), None);
    assert_eq!(SizeHint::from_wire(-1), None);
}

#[test]
fn size_hint_default_is_none() {
    assert_eq!(SizeHint::default(), SizeHint::NONE);
}

#[test]
fn encode_appends_terminator() {
    assert_eq!(encode("abc"), Ok(vec![b'a', b'b', b'c', 0]));
    assert_eq!(encode(""), Ok(vec![0]));
    assert_eq!(encode("é"), Ok(vec![0xc3, 0xa9, 0]));
}

#[test]
fn encode_refuses_inner_zero() {
    assert_eq!(encode("a\0b"), Err(Error::EncodingError));
    assert_eq!(encode("\0"), Err(Error::EncodingError));
}

#[test]
fn weak_ops_fail_after_last_owner_drops() {
    let mut c = Control::new();
    c.clone_owner();
    assert!(c.drop_owner().is_empty());
    assert_eq!(c.upgrade(), Ok(()));
    assert_eq!(c.drop_owner(), vec![NativeCall::Terminate, NativeCall::Destroy]);
    assert_eq!(c.upgrade(), Err(Error::HandleExpired));
    for op in weak_ops() {
        assert_eq!(plan(&op, c.upgrade().is_ok()), Err(Error::HandleExpired));
    }
}

#[test]
fn weak_ops_match_owner_while_alive() {
    let c = Control::new();
    let alive = c.upgrade().is_ok();
    assert!(alive);
    for op in weak_ops() {
        assert_eq!(plan(&op, alive), plan(&op, true));
    }
    assert_eq!(
        plan(&Op::Return("7".to_string(), 1, "x".to_string()), alive),
        Ok(NativeCall::Return(bytes("7"), 1, bytes("x")))
    );
}

#[test]
fn bad_text_fails_every_text_op() {
    let bad = "a\0b".to_string();
    let ops = vec![
        Op::SetTitle(bad.clone()),
        Op::Init(bad.clone()),
        Op::Eval(bad.clone()),
        Op::Bind(bad.clone()),
        Op::Return(bad.clone(), 0, "r".to_string()),
        Op::Return("1".to_string(), 0, bad.clone()),
    ];
    for op in ops {
        assert_eq!(plan(&op, true), Err(Error::EncodingError));
    }
    let mut n = Navigation::new();
    assert_eq!(n.navigate(&bad), Err(Error::EncodingError));
    assert_eq!(n.run_calls(), vec![NativeCall::Run]);
}

#[test]
fn plan_encodes_arguments() {
    assert_eq!(
        plan(&Op::SetTitle("Hi".to_string()), true),
        Ok(NativeCall::SetTitle(bytes("Hi")))
    );
    assert_eq!(
        plan(&Op::SetSize(480, 320, SizeHint::FIXED), true),
        Ok(NativeCall::SetSize(480, 320, 3))
    );
    assert_eq!(plan(&Op::Init("a()".to_string()), true), Ok(NativeCall::Init(bytes("a()"))));
    assert_eq!(plan(&Op::Eval("b()".to_string()), true), Ok(NativeCall::Eval(bytes("b()"))));
    assert_eq!(plan(&Op::Bind("f".to_string()), true), Ok(NativeCall::Bind(bytes("f"))));
    assert_eq!(plan(&Op::Terminate, true), Ok(NativeCall::Terminate));
    assert_eq!(plan(&Op::GetWindow, true), Ok(NativeCall::GetWindow));
    assert_eq!(plan(&Op::Dispatch, true), Ok(NativeCall::Dispatch));
}

#[test]
fn teardown_only_after_last_of_three_owners() {
    let mut c = Control::new();
    c.clone_owner();
    c.clone_owner();
    let mut total = 0;
    for i in 0..3 {
        let calls = c.drop_owner();
        if i < 2 {
            assert!(calls.is_empty());
        } else {
            assert_eq!(calls, vec![NativeCall::Terminate, NativeCall::Destroy]);
        }
        total += calls.len();
    }
    assert_eq!(total, 2);
}

#[test]
fn run_navigates_to_last_url() {
    let mut n = Navigation::new();
    assert_eq!(n.run_calls(), vec![NativeCall::Run]);
    assert_eq!(n.navigate("https://a.example"), Ok(()));
    assert_eq!(n.navigate("https://b.example"), Ok(()));
    assert_eq!(n.navigate("bad\0url"), Err(Error::EncodingError));
    assert_eq!(
        n.run_calls(),
        vec![NativeCall::Navigate(bytes("https://b.example")), NativeCall::Run]
    );
}

#[test]
fn window_keeps_its_address() {
    let w = Window { addr: 0x1000 };
    assert_eq!(w, Window { addr: 0x1000 });
}
