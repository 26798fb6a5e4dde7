use metta_bytecode::builtin_signatures::{
    arrow, builtin_names, get_arg_types, get_expected_type_at_position, get_return_type,
    get_signature, is_builtin, list, state_monad, TypeExpr,
};


#[test]
fn test_get_signature_known() {
    let sig = get_signature("let").unwrap();
    assert_eq!(sig.name, "let");
    assert_eq!(sig.min_arity, 3);
    assert_eq!(sig.max_arity, 3);
}

#[test]
fn test_get_signature_unknown() {
    assert!(get_signature("unknown_form").is_none());
    assert!(get_signature("lit").is_none()); // The problem case from issue #51
}

#[test]
fn test_is_builtin() {
    assert!(is_builtin("+"));
    assert!(is_builtin("let"));
    assert!(is_builtin("match"));
    assert!(!is_builtin("lit"));
    assert!(!is_builtin("MyDataType"));
}

#[test]
fn test_arity_let_vs_lit() {
    // This is the core issue #51 case: lit has 1 arg, let needs 3
    let sig = get_signature("let").unwrap();
    let lit_arity = 1; // (lit p) has 1 argument

    // lit's arity doesn't match let's requirements
    assert!(lit_arity < sig.min_arity);
}

#[test]
fn test_arity_catch() {
    let sig = get_signature("catch").unwrap();
    assert_eq!(sig.min_arity, 2);
    assert_eq!(sig.max_arity, 2);

    // (cach e) has 1 arg, doesn't match catch's 2
    let cach_arity = 1;
    assert!(cach_arity < sig.min_arity);

    // (cach e d) has 2 args, matches catch
    let cach_arity_2 = 2;
    assert!(cach_arity_2 >= sig.min_arity && cach_arity_2 <= sig.max_arity);
}

#[test]
fn test_get_arg_types() {
    let sig = get_signature("if").unwrap();
    let arg_types = get_arg_types(&sig.type_sig).unwrap();

    assert_eq!(arg_types.len(), 3);
    assert_eq!(arg_types[0], TypeExpr::Bool);
    // HE-aligned: then/else are Atom (lazy, unevaluated)
    assert_eq!(arg_types[1], TypeExpr::Atom);
    assert_eq!(arg_types[2], TypeExpr::Atom);
}

#[test]
fn test_get_return_type() {
    let sig = get_signature("+").unwrap();
    let ret = get_return_type(&sig.type_sig).unwrap();
    assert_eq!(*ret, TypeExpr::Number);

    let sig = get_signature("==").unwrap();
    let ret = get_return_type(&sig.type_sig).unwrap();
    assert_eq!(*ret, TypeExpr::Bool);
}

#[test]
fn test_space_operations() {
    let sig = get_signature("match").unwrap();
    let arg_types = get_arg_types(&sig.type_sig).unwrap();

    // First argument of match should be Space
    assert_eq!(arg_types[0], TypeExpr::Space);
}

#[test]
fn test_variadic_operations() {
    let sig = get_signature("case").unwrap();
    assert_eq!(sig.min_arity, 2);
    assert_eq!(sig.max_arity, usize::MAX);

    let sig = get_signature("format-args").unwrap();
    assert_eq!(sig.min_arity, 1);
    assert_eq!(sig.max_arity, usize::MAX);
}

#[test]
fn test_get_expected_type_at_position() {
    let sig = get_signature("match").unwrap();

    // Position 0 (first arg) should be Space
    let t0 = get_expected_type_at_position(&sig, 0).unwrap();
    assert_eq!(*t0, TypeExpr::Space);

    // Position 1 should be Atom (HE-aligned: pattern is Atom meta-type)
    let t1 = get_expected_type_at_position(&sig, 1).unwrap();
    assert_eq!(*t1, TypeExpr::Atom);

    // Out of bounds
    assert!(get_expected_type_at_position(&sig, 100).is_none());
}

#[test]
fn test_all_special_forms_have_signatures() {
    // All forms and operations should have signatures
    let all_ops = [
        // Core
        "=", ":", "!", "quote", "unquote", "eval", "nop",
        // Control flow
        "if", "case", "switch", "if-equal", "if-reducible",
        // Binding
        "let", "let*", "unify", "function", "return", "chain",
        // Error handling
        "error", "Error", "is-error", "catch",
        // Space ops
        "match", "match-or", "new-space", "add-atom", "remove-atom",
        "collapse", "collapse-bind", "get-atoms",
        // Type ops
        "get-type", "check-type", "get-metatype", "validate-atom", "get-type-space",
        "is-function", "type-cast", "metta", "match-type-or", "first-from-pair", ":<",
        // List/Expression ops
        "car-atom", "cdr-atom", "cons-atom", "decons-atom",
        "size-atom", "max-atom", "min-atom", "index-atom", "empty",
        "tuple-concat", "tuple-count", "without", "element-of",
        "range", "reverse-atom", "flatten-atom", "zip-atom",
        "take-atom", "drop-atom",
        // Higher-order
        "map-atom", "filter-atom", "foldl-atom",
        "sort-tuple", "best-candidate",
        // Set ops
        "unique-atom", "union-atom", "intersection-atom", "subtraction-atom",
        // Nondeterminism
        "superpose", "amb", "guard", "commit", "backtrack",
        // Quoting
        "sealed", "atom-subst",
        // State
        "new-state", "get-state", "change-state!",
        // I/O
        "println!", "trace!", "repr", "format-args", "=alpha",
        // Modules
        "include", "import!", "bind!", "mod-space!", "print-mods!", "pragma!",
        // Memoization
        "new-memo", "memo", "memo-first", "clear-memo!", "memo-stats",
        // Assertions
        "assertEqual", "assertEqualMsg",
        "assertAlphaEqual", "assertAlphaEqualMsg",
        "assertEqualToResult", "assertEqualToResultMsg",
        "assertAlphaEqualToResult", "assertAlphaEqualToResultMsg",
        // Arithmetic
        "+", "-", "*", "/", "%", "min", "max",
        "/safe", "clamp", "floor-div",
        "abs", "abs-math", "floor", "floor-math",
        "ceil", "ceil-math", "round", "round-math",
        "sqrt", "sqrt-math", "trunc", "trunc-math",
        "pow", "pow-math", "log", "log-math",
        // Trig
        "sin-math", "cos-math", "tan-math",
        "asin-math", "acos-math", "atan-math",
        // Float classification
        "isnan-math", "isinf-math",
        // Boolean
        "and", "or", "not", "xor",
        // Comparison
        "<", "<=", ">", ">=", "==", "!=",
    ];

    for form in all_ops {
        assert!(
            is_builtin(form),
            "Operation '{}' should have a signature",
            form
        );
    }
}

#[test]
fn test_arithmetic_operators_have_signatures() {
    for op in ["+", "-", "*", "/", "%"] {
        let sig = get_signature(op);
        assert!(sig.is_some(), "Operator '{}' should have a signature", op);
        let sig = sig.unwrap();
        assert_eq!(sig.min_arity, 2);
        assert_eq!(sig.max_arity, 2);
    }
}

#[test]
fn test_comparison_operators_have_signatures() {
    for op in ["<", "<=", ">", ">=", "==", "!="] {
        let sig = get_signature(op);
        assert!(sig.is_some(), "Operator '{}' should have a signature", op);
        let sig = sig.unwrap();
        assert_eq!(sig.min_arity, 2);
        assert_eq!(sig.max_arity, 2);
    }
}

// ========================================================================
// Additional Signature Completeness Tests
// ========================================================================

#[test]
fn test_list_operations_have_signatures() {
    for op in [
        "car-atom", "cdr-atom", "cons-atom", "decons-atom",
        "size-atom", "max-atom", "min-atom", "index-atom", "empty",
        "tuple-concat", "tuple-count", "without", "element-of",
        "range", "reverse-atom", "flatten-atom", "zip-atom",
        "take-atom", "drop-atom",
    ] {
        let sig = get_signature(op);
        assert!(
            sig.is_some(),
            "List operation '{}' should have a signature",
            op
        );
    }
}

#[test]
fn test_state_operations_have_signatures() {
    for op in ["new-state", "get-state", "change-state!"] {
        let sig = get_signature(op);
        assert!(
            sig.is_some(),
            "State operation '{}' should have a signature",
            op
        );
    }
}

#[test]
fn test_io_operations_have_signatures() {
    for op in ["println!", "trace!", "repr", "format-args"] {
        let sig = get_signature(op);
        assert!(
            sig.is_some(),
            "I/O operation '{}' should have a signature",
            op
        );
    }
}

#[test]
fn test_module_operations_have_signatures() {
    for op in ["bind!", "include", "import!", "mod-space!", "print-mods!", "pragma!"] {
        let sig = get_signature(op);
        assert!(
            sig.is_some(),
            "Module operation '{}' should have a signature",
            op
        );
    }
}

#[test]
fn test_type_operations_have_signatures() {
    for op in [":", "get-type", "check-type", "get-metatype", "validate-atom", "get-type-space", "is-function", "type-cast", "metta", "match-type-or", "first-from-pair", ":<"] {
        let sig = get_signature(op);
        assert!(
            sig.is_some(),
            "Type operation '{}' should have a signature",
            op
        );
    }
}

#[test]
fn test_error_operations_have_signatures() {
    for op in ["error", "Error", "is-error", "catch"] {
        let sig = get_signature(op);
        assert!(
            sig.is_some(),
            "Error operation '{}' should have a signature",
            op
        );
    }
}

#[test]
fn test_evaluation_operations_have_signatures() {
    for op in ["!", "eval", "quote", "unquote", "nop", "sealed", "atom-subst"] {
        let sig = get_signature(op);
        assert!(
            sig.is_some(),
            "Evaluation operation '{}' should have a signature",
            op
        );
    }
}

#[test]
fn test_binding_operations_have_signatures() {
    for op in ["let", "let*", "unify", "function", "return", "chain"] {
        let sig = get_signature(op);
        assert!(
            sig.is_some(),
            "Binding operation '{}' should have a signature",
            op
        );
    }
}

#[test]
fn test_higher_order_list_operations_have_signatures() {
    for op in ["map-atom", "filter-atom", "foldl-atom", "sort-tuple", "best-candidate"] {
        let sig = get_signature(op);
        assert!(
            sig.is_some(),
            "Higher-order list operation '{}' should have a signature",
            op
        );
    }
}

// ========================================================================
// Return Type Tests
// ========================================================================

#[test]
fn test_return_type_arithmetic() {
    for op in ["+", "-", "*", "/", "%"] {
        let sig = get_signature(op).unwrap();
        let ret = get_return_type(&sig.type_sig).unwrap();
        assert_eq!(
            *ret,
            TypeExpr::Number,
            "Arithmetic op '{}' should return Number",
            op
        );
    }
}

#[test]
fn test_return_type_comparison() {
    for op in ["<", "<=", ">", ">=", "==", "!="] {
        let sig = get_signature(op).unwrap();
        let ret = get_return_type(&sig.type_sig).unwrap();
        assert_eq!(
            *ret,
            TypeExpr::Bool,
            "Comparison op '{}' should return Bool",
            op
        );
    }
}

#[test]
fn test_return_type_space_operations() {
    let sig = get_signature("new-space").unwrap();
    let ret = get_return_type(&sig.type_sig).unwrap();
    assert_eq!(*ret, TypeExpr::Space);

    let sig = get_signature("add-atom").unwrap();
    let ret = get_return_type(&sig.type_sig).unwrap();
    assert_eq!(*ret, TypeExpr::Unit);

    // HE-aligned: get-atoms returns Atom, not List
    let sig = get_signature("get-atoms").unwrap();
    let ret = get_return_type(&sig.type_sig).unwrap();
    assert_eq!(*ret, TypeExpr::Atom);
}

#[test]
fn test_return_type_state_operations() {
    // HE-aligned: new-state returns StateMonad($t)
    let sig = get_signature("new-state").unwrap();
    let ret = get_return_type(&sig.type_sig).unwrap();
    assert!(matches!(ret, TypeExpr::StateMonad(_)));

    let sig = get_signature("get-state").unwrap();
    let ret = get_return_type(&sig.type_sig).unwrap();
    assert_eq!(*ret, TypeExpr::Var("t"));
}

#[test]
fn test_return_type_error() {
    let sig = get_signature("error").unwrap();
    let ret = get_return_type(&sig.type_sig).unwrap();
    assert_eq!(*ret, TypeExpr::Error);
}

#[test]
fn test_return_type_type_operations() {
    let sig = get_signature("get-type").unwrap();
    let ret = get_return_type(&sig.type_sig).unwrap();
    assert_eq!(*ret, TypeExpr::Type);

    let sig = get_signature("check-type").unwrap();
    let ret = get_return_type(&sig.type_sig).unwrap();
    assert_eq!(*ret, TypeExpr::Bool);

    let sig = get_signature(":").unwrap();
    let ret = get_return_type(&sig.type_sig).unwrap();
    assert_eq!(*ret, TypeExpr::Unit);
}

#[test]
fn test_return_type_io() {
    let sig = get_signature("println!").unwrap();
    let ret = get_return_type(&sig.type_sig).unwrap();
    assert_eq!(*ret, TypeExpr::IO(Box::new(TypeExpr::Unit)));

    let sig = get_signature("trace!").unwrap();
    let ret = get_return_type(&sig.type_sig).unwrap();
    assert_eq!(*ret, TypeExpr::IO(Box::new(TypeExpr::Undefined)));

    let sig = get_signature("repr").unwrap();
    let ret = get_return_type(&sig.type_sig).unwrap();
    assert_eq!(*ret, TypeExpr::String);
}

// ========================================================================
// TypeExpr Tests
// ========================================================================

#[test]
fn test_type_expr_equality() {
    assert_eq!(TypeExpr::Number, TypeExpr::Number);
    assert_eq!(TypeExpr::Bool, TypeExpr::Bool);
    assert_eq!(TypeExpr::Var("a"), TypeExpr::Var("a"));
    assert_ne!(TypeExpr::Var("a"), TypeExpr::Var("b"));
    assert_ne!(TypeExpr::Number, TypeExpr::String);
}

#[test]
fn test_type_expr_clone() {
    let source = TypeExpr::Arrow(
        vec![TypeExpr::Number, TypeExpr::Number],
        Box::new(TypeExpr::Number),
    );
    let cloned = source.clone();
    assert_eq!(source, cloned);
}

#[test]
fn test_type_expr_list_equality() {
    let list1 = TypeExpr::List(Box::new(TypeExpr::Var("a")));
    let list2 = TypeExpr::List(Box::new(TypeExpr::Var("a")));
    let list3 = TypeExpr::List(Box::new(TypeExpr::Var("b")));

    assert_eq!(list1, list2);
    assert_ne!(list1, list3);
}

#[test]
fn test_type_expr_arrow_equality() {
    let arrow1 = TypeExpr::Arrow(
        vec![TypeExpr::Bool, TypeExpr::Var("a"), TypeExpr::Var("a")],
        Box::new(TypeExpr::Var("a")),
    );
    let arrow2 = TypeExpr::Arrow(
        vec![TypeExpr::Bool, TypeExpr::Var("a"), TypeExpr::Var("a")],
        Box::new(TypeExpr::Var("a")),
    );
    let arrow3 = TypeExpr::Arrow(vec![TypeExpr::Bool], Box::new(TypeExpr::Bool));

    assert_eq!(arrow1, arrow2);
    assert_ne!(arrow1, arrow3);
}

// ========================================================================
// Helper Function Tests
// ========================================================================

#[test]
fn test_arrow_helper() {
    let t = arrow(vec![TypeExpr::Number, TypeExpr::Number], TypeExpr::Number);
    assert!(matches!(t, TypeExpr::Arrow(args, _) if args.len() == 2));

    // Empty arrow
    let t = arrow(vec![], TypeExpr::Unit);
    if let TypeExpr::Arrow(args, ret) = t {
        assert!(args.is_empty());
        assert_eq!(*ret, TypeExpr::Unit);
    } else {
        panic!("Expected Arrow");
    }
}

#[test]
fn test_list_helper() {
    let t = list(TypeExpr::Number);
    if let TypeExpr::List(inner) = t {
        assert_eq!(*inner, TypeExpr::Number);
    } else {
        panic!("Expected List");
    }
}

#[test]
fn test_nested_list() {
    // List of Lists
    let t = list(list(TypeExpr::Number));
    if let TypeExpr::List(outer) = t {
        if let TypeExpr::List(inner) = *outer {
            assert_eq!(*inner, TypeExpr::Number);
        } else {
            panic!("Expected inner List");
        }
    } else {
        panic!("Expected outer List");
    }
}

// ========================================================================
// builtin_names Iterator Tests
// ========================================================================

#[test]
fn test_builtin_names_not_empty() {
    let names: Vec<_> = builtin_names();
    assert!(!names.is_empty(), "builtin_names should not be empty");
    assert!(names.len() > 100, "Should have at least 100 built-ins, got {}", names.len());
}

#[test]
fn test_builtin_names_contains_expected() {
    let names: Vec<_> = builtin_names();
    assert!(names.contains(&"+"), "Should contain +");
    assert!(names.contains(&"let"), "Should contain let");
    assert!(names.contains(&"match"), "Should contain match");
    assert!(names.contains(&"if"), "Should contain if");
}

#[test]
fn test_builtin_names_consistency() {
    // Every name from builtin_names should be found via get_signature
    for name in builtin_names() {
        assert!(
            get_signature(name).is_some(),
            "builtin_names returned '{}' but get_signature can't find it",
            name
        );
    }
}

// ========================================================================
// Arity Edge Case Tests
// ========================================================================

#[test]
fn test_zero_arity_operations() {
    // new-space and empty have fixed arity 0
    for op in ["new-space", "empty"] {
        let sig = get_signature(op).unwrap();
        assert_eq!(sig.min_arity, 0, "Op '{}' should have min_arity 0", op);
        assert_eq!(sig.max_arity, 0, "Op '{}' should have max_arity 0", op);
    }
    // nop accepts 0+ args per HE
    let sig = get_signature("nop").unwrap();
    assert_eq!(sig.min_arity, 0);
}

#[test]
fn test_single_arity_operations() {
    let single_arity_ops = [
        "!",
        "quote",
        "eval",
        "get-atoms",
        "get-type",
        "is-error",
        "new-state",
        "get-state",
        "println!",
        "repr",
    ];
    for op in single_arity_ops {
        let sig = get_signature(op).unwrap();
        assert_eq!(sig.min_arity, 1, "Op '{}' should have min_arity 1", op);
        assert_eq!(sig.max_arity, 1, "Op '{}' should have max_arity 1", op);
    }
}

#[test]
fn test_binary_operations() {
    let binary_ops = [
        "+",
        "-",
        "*",
        "/",
        "%",
        "<",
        "<=",
        ">",
        ">=",
        "==",
        "!=",
        "add-atom",
        "remove-atom",
        "cons-atom",
        "bind!",
        "catch",
        "let*",
        ":",
        "check-type",
        "error",
        "change-state!",
    ];
    for op in binary_ops {
        let sig = get_signature(op).unwrap();
        assert_eq!(sig.min_arity, 2, "Op '{}' should have min_arity 2", op);
        assert_eq!(sig.max_arity, 2, "Op '{}' should have max_arity 2", op);
    }
}

#[test]
fn test_ternary_operations() {
    // foldl-atom is now 5-ary per HE
    let ternary_ops = ["if", "let", "chain"];
    for op in ternary_ops {
        let sig = get_signature(op).unwrap();
        assert_eq!(sig.min_arity, 3, "Op '{}' should have min_arity 3", op);
        assert_eq!(sig.max_arity, 3, "Op '{}' should have max_arity 3", op);
    }
    let sig = get_signature("foldl-atom").unwrap();
    assert_eq!(sig.min_arity, 5);
    assert_eq!(sig.max_arity, 5);
}

#[test]
fn test_quaternary_operations() {
    let quad_ops = ["unify"];
    for op in quad_ops {
        let sig = get_signature(op).unwrap();
        assert_eq!(sig.min_arity, 4, "Op '{}' should have min_arity 4", op);
        assert_eq!(sig.max_arity, 4, "Op '{}' should have max_arity 4", op);
    }
}

#[test]
fn test_match_arity_with_optional_default() {
    let sig = get_signature("match").unwrap();
    assert_eq!(sig.min_arity, 3, "match should have min_arity 3");
    assert_eq!(
        sig.max_arity, 4,
        "match should have max_arity 4 (optional default)"
    );
}

// ========================================================================
// Expected Type Position Tests
// ========================================================================

#[test]
fn test_expected_type_if() {
    let sig = get_signature("if").unwrap();

    // (if cond then else) — HE: then/else are Atom (lazy)
    let t0 = get_expected_type_at_position(&sig, 0).unwrap();
    assert_eq!(*t0, TypeExpr::Bool, "if position 0 should be Bool");

    let t1 = get_expected_type_at_position(&sig, 1).unwrap();
    assert_eq!(*t1, TypeExpr::Atom, "if position 1 should be Atom (lazy)");

    let t2 = get_expected_type_at_position(&sig, 2).unwrap();
    assert_eq!(*t2, TypeExpr::Atom, "if position 2 should be Atom (lazy)");
}

#[test]
fn test_expected_type_let() {
    let sig = get_signature("let").unwrap();

    // HE-aligned: (let Atom %Undefined% Atom %Undefined%)
    let t0 = get_expected_type_at_position(&sig, 0).unwrap();
    assert_eq!(*t0, TypeExpr::Atom, "let position 0 should be Atom (pattern)");

    let t1 = get_expected_type_at_position(&sig, 1).unwrap();
    assert_eq!(*t1, TypeExpr::Undefined, "let position 1 should be %Undefined% (value)");

    let t2 = get_expected_type_at_position(&sig, 2).unwrap();
    assert_eq!(*t2, TypeExpr::Atom, "let position 2 should be Atom (body)");
}

#[test]
fn test_expected_type_add_atom() {
    let sig = get_signature("add-atom").unwrap();

    // HE-aligned: (add-atom SpaceType Atom Unit) — atom arg is unevaluated
    let t0 = get_expected_type_at_position(&sig, 0).unwrap();
    assert_eq!(*t0, TypeExpr::Space, "add-atom position 0 should be Space");

    let t1 = get_expected_type_at_position(&sig, 1).unwrap();
    assert_eq!(*t1, TypeExpr::Atom, "add-atom position 1 should be Atom (unevaluated)");
}

#[test]
fn test_expected_type_cons_atom() {
    let sig = get_signature("cons-atom").unwrap();

    // HE-aligned: (cons-atom Atom Expression Atom)
    let t0 = get_expected_type_at_position(&sig, 0).unwrap();
    assert_eq!(*t0, TypeExpr::Atom, "cons-atom position 0 should be Atom");

    let t1 = get_expected_type_at_position(&sig, 1).unwrap();
    assert_eq!(*t1, TypeExpr::Expression, "cons-atom position 1 should be Expression");
}

#[test]
fn test_expected_type_out_of_bounds() {
    let sig = get_signature("+").unwrap();

    assert!(get_expected_type_at_position(&sig, 0).is_some());
    assert!(get_expected_type_at_position(&sig, 1).is_some());
    assert!(
        get_expected_type_at_position(&sig, 2).is_none(),
        "Position 2 should be out of bounds for +"
    );
    assert!(
        get_expected_type_at_position(&sig, 100).is_none(),
        "Position 100 should be out of bounds"
    );
}

// ========================================================================
// TypeExpr Debug/Display Tests
// ========================================================================

#[test]
fn test_type_expr_debug_format() {
    // Ensure Debug is implemented and produces reasonable output
    let t = TypeExpr::Arrow(
        vec![TypeExpr::Number, TypeExpr::Number],
        Box::new(TypeExpr::Number),
    );
    let debug_str = format!("{:?}", t);
    assert!(debug_str.contains("Arrow"));
    assert!(debug_str.contains("Number"));
}

#[test]
fn test_builtin_signature_debug_format() {
    let sig = get_signature("+").unwrap();
    let debug_str = format!("{:?}", sig);
    assert!(debug_str.contains("+"));
    assert!(debug_str.contains("min_arity"));
}

// ========================================================================
// Phase 9: New Type Variant Tests
// ========================================================================

#[test]
fn test_type_expr_new_variants() {
    assert_eq!(TypeExpr::Undefined, TypeExpr::Undefined);
    assert_eq!(TypeExpr::Expression, TypeExpr::Expression);
    assert_eq!(TypeExpr::Variable, TypeExpr::Variable);
    assert_eq!(TypeExpr::Grounded, TypeExpr::Grounded);
    assert_ne!(TypeExpr::Undefined, TypeExpr::Atom);
    assert_ne!(TypeExpr::Expression, TypeExpr::Atom);
}

#[test]
fn test_state_monad_type() {
    let sm1 = TypeExpr::StateMonad(Box::new(TypeExpr::Var("t")));
    let sm2 = TypeExpr::StateMonad(Box::new(TypeExpr::Var("t")));
    let sm3 = TypeExpr::StateMonad(Box::new(TypeExpr::Number));
    assert_eq!(sm1, sm2);
    assert_ne!(sm1, sm3);
}

#[test]
fn test_state_monad_helper() {
    let t = state_monad(TypeExpr::Var("t"));
    if let TypeExpr::StateMonad(inner) = t {
        assert_eq!(*inner, TypeExpr::Var("t"));
    } else {
        panic!("Expected StateMonad");
    }
}

#[test]
fn test_boolean_operations_have_signatures() {
    for op in ["and", "or", "not", "xor"] {
        let sig = get_signature(op);
        assert!(sig.is_some(), "Boolean op '{}' should have a signature", op);
    }
}

#[test]
fn test_set_operations_have_signatures() {
    for op in ["unique-atom", "union-atom", "intersection-atom", "subtraction-atom"] {
        let sig = get_signature(op);
        assert!(sig.is_some(), "Set op '{}' should have a signature", op);
    }
}

#[test]
fn test_nondeterminism_operations_have_signatures() {
    for op in ["superpose", "amb", "guard", "commit", "backtrack"] {
        let sig = get_signature(op);
        assert!(sig.is_some(), "Nondeterminism op '{}' should have a signature", op);
    }
}

#[test]
fn test_memoization_operations_have_signatures() {
    for op in ["new-memo", "memo", "memo-first", "clear-memo!", "memo-stats"] {
        let sig = get_signature(op);
        assert!(sig.is_some(), "Memoization op '{}' should have a signature", op);
    }
}

#[test]
fn test_assertion_operations_have_signatures() {
    for op in [
        "assertEqual", "assertEqualMsg",
        "assertAlphaEqual", "assertAlphaEqualMsg",
        "assertEqualToResult", "assertEqualToResultMsg",
        "assertAlphaEqualToResult", "assertAlphaEqualToResultMsg",
    ] {
        let sig = get_signature(op);
        assert!(sig.is_some(), "Assertion op '{}' should have a signature", op);
    }
}

#[test]
fn test_math_operations_have_signatures() {
    // Unary math
    for op in ["abs", "abs-math", "floor", "floor-math", "ceil", "ceil-math",
                "round", "round-math", "sqrt", "sqrt-math", "trunc", "trunc-math"] {
        let sig = get_signature(op);
        assert!(sig.is_some(), "Math op '{}' should have a signature", op);
        let sig = sig.unwrap();
        assert_eq!(sig.min_arity, 1, "Unary math op '{}' should have min_arity 1", op);
    }
    // Binary math
    for op in ["pow", "pow-math", "log", "log-math"] {
        let sig = get_signature(op);
        assert!(sig.is_some(), "Math op '{}' should have a signature", op);
        let sig = sig.unwrap();
        assert_eq!(sig.min_arity, 2, "Binary math op '{}' should have min_arity 2", op);
    }
}

#[test]
fn test_trig_operations_have_signatures() {
    for op in ["sin-math", "cos-math", "tan-math", "asin-math", "acos-math", "atan-math"] {
        let sig = get_signature(op);
        assert!(sig.is_some(), "Trig op '{}' should have a signature", op);
        let sig = sig.unwrap();
        assert_eq!(sig.min_arity, 1);
        let ret = get_return_type(&sig.type_sig).unwrap();
        assert_eq!(*ret, TypeExpr::Number);
    }
}

#[test]
fn test_float_classification_signatures() {
    for op in ["isnan-math", "isinf-math"] {
        let sig = get_signature(op).unwrap();
        assert_eq!(sig.min_arity, 1);
        let ret = get_return_type(&sig.type_sig).unwrap();
        assert_eq!(*ret, TypeExpr::Bool);
    }
}

#[test]
fn test_total_signature_count() {
    let names: Vec<_> = builtin_names();
    // We have 130+ signatures now
    assert!(names.len() >= 130, "Should have at least 130 built-in signatures, got {}", names.len());
}

