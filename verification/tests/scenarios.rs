use thread_scoped_ref::Scope;

/// Publishing makes the value visible inside the body; afterwards the scope
/// reads as absent again.
#[test]
fn publish_then_absent() {
    let mut scope: Scope<String> = Scope::default();

    let seen = scope.scoped("X".to_string(), |s| {
        s.with(|maybe_value| maybe_value.cloned())
    });
    assert_eq!(seen, Some("X".to_string()));

    let after = scope.with(|maybe_value| maybe_value.cloned());
    assert_eq!(after, None);
}

/// A nested publication shadows the outer one while it is active and hands
/// the outer value back when it ends; the outermost return leaves absence.
#[test]
fn nested_publish_restores_in_order() {
    let mut scope: Scope<String> = Scope::default();

    scope.scoped("outer".to_string(), |s| {
        let inner_seen = s.scoped("inner".to_string(), |s2| {
            s2.with(|maybe_value| maybe_value.cloned())
        });
        assert_eq!(inner_seen, Some("inner".to_string()));

        let outer_again = s.with(|maybe_value| maybe_value.cloned());
        assert_eq!(outer_again, Some("outer".to_string()));
    });

    let after = scope.with(|maybe_value| maybe_value.cloned());
    assert_eq!(after, None);
}

/// Three levels of nesting restore in exactly reverse order of publication.
#[test]
fn three_levels_of_nesting() {
    let mut scope: Scope<u64> = Scope::default();

    scope.scoped(1, |s1| {
        s1.scoped(2, |s2| {
            s2.scoped(3, |s3| {
                assert_eq!(s3.with(|v| v.copied()), Some(3));
            });
            assert_eq!(s2.with(|v| v.copied()), Some(2));
        });
        assert_eq!(s1.with(|v| v.copied()), Some(1));
    });
    assert_eq!(scope.with(|v| v.copied()), None);
}

/// A publication shadows a value placed with `set` and restores it afterwards.
#[test]
fn scoped_restores_a_set_value() {
    let mut scope: Scope<u64> = Scope::default();

    scope.set(Some(5));
    assert_eq!(scope.with(|v| v.copied()), Some(5));

    scope.scoped(9, |s| {
        assert_eq!(s.with(|v| v.copied()), Some(9));
    });

    assert_eq!(scope.with(|v| v.copied()), Some(5));
}

/// `set` overwrites, `take` empties and hands the contents out.
#[test]
fn set_and_take_move_the_contents() {
    let mut scope: Scope<u64> = Scope::default();

    assert_eq!(scope.take(), None);

    scope.set(Some(11));
    scope.set(Some(12));
    assert_eq!(scope.take(), Some(12));
    assert_eq!(scope.take(), None);
    assert_eq!(scope.with(|v| v.copied()), None);
}

/// The body's return value is handed through unchanged.
#[test]
fn body_result_is_propagated() {
    let mut scope: Scope<u64> = Scope::default();
    let result: Result<u64, &'static str> = scope.scoped(21, |s| {
        s.with(|v| match v {
            Some(n) => Ok(*n * 2),
            None => Err("missing value"),
        })
    });
    assert_eq!(result, Ok(42));
}
