use std::collections::HashMap;

use opencog_atoms::api::{atom_id_from_field, atom_id_from_parsed, evaluation_echo, ApiFailure, RequestBody};
use opencog_atoms::atomspace::AtomSpaceManager;
use opencog_atoms::config::{AtomSpaceConfig, InferenceConfig, OpenCogConfig};
use opencog_atoms::error::OpenCogError;
use opencog_atoms::inference::{
    flatten_results, HyperonAtom, InferenceAction, InferenceEngine,
};
use opencog_atoms::text::{append_decimal, chars_of, text_contains};
use opencog_atoms::types::{
    Atom, AtomId, AtomKind, AtomType, AttentionValue, InferenceRequest, MettaExpression,
    QueryPattern, TruthValue,
};

fn symbol(name: &str) -> Atom {
    Atom {
        id: AtomId::new(),
        atom_type: AtomType::Symbol { name: name.to_string() },
        truth_value: Some(TruthValue::default()),
        attention_value: Some(AttentionValue::default()),
    }
}

fn expr(text: &str) -> MettaExpression {
    MettaExpression { expression: text.to_string(), context: vec![] }
}

fn query_for(text: &str) -> QueryPattern {
    QueryPattern { pattern: expr(text), bindings: HashMap::new(), max_results: None }
}

#[test]
fn test_atom_types() {
    // Test AtomId generation
    let id1 = AtomId::new();
    let id2 = AtomId::new();
    assert_ne!(id1, id2);

    // Test AtomType variants
    let symbol = AtomType::Symbol { name: "Test".to_string() };
    let number = AtomType::Number { value: 42.0f64.to_bits() };
    let variable = AtomType::Variable { name: "X".to_string() };

    match symbol {
        AtomType::Symbol { name } => assert_eq!(name, "Test"),
        _ => panic!("Expected Symbol type"),
    }

    match number {
        AtomType::Number { value } => assert_eq!(f64::from_bits(value), 42.0),
        _ => panic!("Expected Number type"),
    }

    match variable {
        AtomType::Variable { name } => assert_eq!(name, "X"),
        _ => panic!("Expected Variable type"),
    }
}

#[test]
fn test_truth_values() {
    let tv = TruthValue::default();
    assert_eq!(f64::from_bits(tv.strength), 1.0);
    assert_eq!(f64::from_bits(tv.confidence), 1.0);

    let custom_tv = TruthValue { strength: 0.8f64.to_bits(), confidence: 0.9f64.to_bits() };
    assert_eq!(f64::from_bits(custom_tv.strength), 0.8);
    assert_eq!(f64::from_bits(custom_tv.confidence), 0.9);
}

#[test]
fn test_attention_values() {
    let av = AttentionValue::default();
    assert_eq!(f64::from_bits(av.sti), 0.0);
    assert_eq!(f64::from_bits(av.lti), 0.0);
    assert_eq!(f64::from_bits(av.vlti), 0.0);

    let custom_av = AttentionValue {
        sti: 100.0f64.to_bits(),
        lti: 50.0f64.to_bits(),
        vlti: 10.0f64.to_bits(),
    };
    assert_eq!(f64::from_bits(custom_av.sti), 100.0);
    assert_eq!(f64::from_bits(custom_av.lti), 50.0);
    assert_eq!(f64::from_bits(custom_av.vlti), 10.0);
}

#[test]
fn test_metta_expression() {
    let expr = MettaExpression { expression: "(+ 2 3)".to_string(), context: vec![] };
    assert_eq!(expr.expression, "(+ 2 3)");
    assert!(expr.context.is_empty());
}

#[test]
fn atom_ids_are_random_v4() {
    for _ in 0..32 {
        let id = AtomId::new();
        assert_eq!((id.0 >> 76) & 0xf, 4);
        assert_eq!((id.0 >> 62) & 0x3, 2);
        let d = AtomId::default();
        assert_eq!((d.0 >> 76) & 0xf, 4);
    }
}

#[test]
fn add_stats_remove_round_trip() {
    let mut space = AtomSpaceManager::new(&AtomSpaceConfig::default()).unwrap();
    let atom = symbol("TestConcept");
    let atom_id = space.add_atom(atom.clone()).unwrap();
    assert_eq!(atom_id, atom.id);

    let stats = space.get_stats().unwrap();
    assert_eq!(stats.total_atoms, 1);
    assert_eq!(stats.memory_usage, 128);
    assert_eq!(stats.atom_types, vec![("Symbol".to_string(), 1)]);

    let removed = space.remove_atom(atom_id).unwrap();
    assert!(removed);
    let removed_again = space.remove_atom(atom_id).unwrap();
    assert!(!removed_again);

    let stats = space.get_stats().unwrap();
    assert_eq!(stats.total_atoms, 0);
    assert_eq!(stats.memory_usage, 0);
    assert!(stats.atom_types.is_empty());
}

#[test]
fn get_gives_back_what_was_added() {
    let mut space = AtomSpaceManager::new(&AtomSpaceConfig::default()).unwrap();
    let atom = Atom {
        id: AtomId(7),
        atom_type: AtomType::Link { relation: "Inheritance".to_string(), atoms: vec![AtomId(1), AtomId(2)] },
        truth_value: Some(TruthValue { strength: 3, confidence: 4 }),
        attention_value: None,
    };
    space.add_atom(atom).unwrap();
    let got = space.get_atom(AtomId(7)).unwrap().unwrap();
    assert_eq!(got.id, AtomId(7));
    match got.atom_type {
        AtomType::Link { relation, atoms } => {
            assert_eq!(relation, "Inheritance");
            assert_eq!(atoms, vec![AtomId(1), AtomId(2)]);
        }
        _ => panic!("Expected Link type"),
    }
    assert_eq!(got.truth_value, Some(TruthValue { strength: 3, confidence: 4 }));
    assert_eq!(got.attention_value, None);
    assert!(space.get_atom(AtomId(8)).unwrap().is_none());
    assert_eq!(space.len(), 1);
}

#[test]
fn adding_the_same_id_replaces() {
    let mut space = AtomSpaceManager::new(&AtomSpaceConfig::default()).unwrap();
    let mut a = symbol("First");
    a.id = AtomId(5);
    let mut b = symbol("Second");
    b.id = AtomId(5);
    space.add_atom(a).unwrap();
    space.add_atom(b).unwrap();
    assert_eq!(space.len(), 1);
    match space.get_atom(AtomId(5)).unwrap().unwrap().atom_type {
        AtomType::Symbol { name } => assert_eq!(name, "Second"),
        _ => panic!("Expected Symbol type"),
    }
}

#[test]
fn stats_count_each_kind_in_order() {
    let mut space = AtomSpaceManager::new(&AtomSpaceConfig::default()).unwrap();
    space.add_atom(symbol("A")).unwrap();
    space.add_atom(symbol("B")).unwrap();
    space
        .add_atom(Atom {
            id: AtomId::new(),
            atom_type: AtomType::Variable { name: "X".to_string() },
            truth_value: None,
            attention_value: None,
        })
        .unwrap();
    space
        .add_atom(Atom {
            id: AtomId::new(),
            atom_type: AtomType::Expression { operator: "+".to_string(), operands: vec![] },
            truth_value: None,
            attention_value: None,
        })
        .unwrap();
    space
        .add_atom(Atom {
            id: AtomId::new(),
            atom_type: AtomType::Number { value: 2.5f64.to_bits() },
            truth_value: None,
            attention_value: None,
        })
        .unwrap();
    let stats = space.get_stats().unwrap();
    assert_eq!(stats.total_atoms, 5);
    assert_eq!(stats.memory_usage, 640);
    assert_eq!(
        stats.atom_types,
        vec![
            ("Symbol".to_string(), 2),
            ("Number".to_string(), 1),
            ("Expression".to_string(), 1),
            ("Variable".to_string(), 1),
        ]
    );
    let sum: usize = stats.atom_types.iter().map(|e| e.1).sum();
    assert_eq!(sum, stats.total_atoms);
}

#[test]
fn clear_empties_the_space() {
    let mut space = AtomSpaceManager::new(&AtomSpaceConfig::default()).unwrap();
    space.add_atom(symbol("A")).unwrap();
    space.add_atom(symbol("B")).unwrap();
    space.clear().unwrap();
    assert_eq!(space.len(), 0);
    assert_eq!(space.get_stats().unwrap().total_atoms, 0);
}

#[test]
fn query_finds_symbols_and_operators_in_the_pattern() {
    let mut space = AtomSpaceManager::new(&AtomSpaceConfig::default()).unwrap();
    let human = symbol("Human");
    let human_id = human.id;
    space.add_atom(human).unwrap();
    space.add_atom(symbol("Mortal")).unwrap();
    let inherit = Atom {
        id: AtomId::new(),
        atom_type: AtomType::Expression { operator: "Inheritance".to_string(), operands: vec![] },
        truth_value: None,
        attention_value: None,
    };
    let inherit_id = inherit.id;
    space.add_atom(inherit).unwrap();
    space
        .add_atom(Atom {
            id: AtomId::new(),
            atom_type: AtomType::Variable { name: "Human".to_string() },
            truth_value: None,
            attention_value: None,
        })
        .unwrap();

    let result = space.query(query_for("Human")).unwrap();
    assert_eq!(result.matches.len(), 1);
    assert_eq!(result.matches[0].id, human_id);
    assert_eq!(result.bindings.len(), 1);
    assert!(result.bindings[0].is_empty());

    let result = space.query(query_for("(Inheritance Human Animal)")).unwrap();
    let mut ids: Vec<AtomId> = result.matches.iter().map(|a| a.id).collect();
    ids.sort_by_key(|i| i.0);
    let mut expected = vec![human_id, inherit_id];
    expected.sort_by_key(|i| i.0);
    assert_eq!(ids, expected);

    let result = space.query(query_for("nothing here")).unwrap();
    assert!(result.matches.is_empty());
}

#[test]
fn symbol_with_empty_name_answers_every_pattern() {
    let mut space = AtomSpaceManager::new(&AtomSpaceConfig::default()).unwrap();
    space.add_atom(symbol("")).unwrap();
    assert_eq!(space.query(query_for("")).unwrap().matches.len(), 1);
    assert_eq!(space.query(query_for("anything")).unwrap().matches.len(), 1);
}

#[test]
fn text_search_edges() {
    assert!(text_contains("abc", ""));
    assert!(text_contains("", ""));
    assert!(!text_contains("", "a"));
    assert!(text_contains("abc", "abc"));
    assert!(text_contains("xxabcxx", "bc"));
    assert!(!text_contains("ab", "abc"));
    assert!(!text_contains("acb", "ab"));
    assert!(text_contains("größer als", "ß"));
    assert_eq!(chars_of("héllo"), vec!['h', 'é', 'l', 'l', 'o']);
}

#[test]
fn decimal_rendering() {
    for n in [0usize, 7, 10, 12345, 100000, usize::MAX] {
        let mut s = "n=".to_string();
        append_decimal(&mut s, n);
        assert_eq!(s, format!("n={}", n));
    }
}

#[test]
fn hyperon_atoms_convert() {
    let engine = InferenceEngine::new(&InferenceConfig::default()).unwrap();
    let id = AtomId(99);
    let a = engine.hyperon_to_atom(&HyperonAtom::Symbol { name: "Cat".to_string() }, id).unwrap();
    assert_eq!(a.id, id);
    assert!(matches!(a.atom_type, AtomType::Symbol { ref name } if name == "Cat"));
    assert_eq!(a.truth_value, Some(TruthValue::default()));
    assert_eq!(a.attention_value, Some(AttentionValue::default()));

    let v = engine.hyperon_to_atom(&HyperonAtom::Variable { name: "x".to_string() }, id).unwrap();
    assert!(matches!(v.atom_type, AtomType::Variable { ref name } if name == "x"));

    let e = engine
        .hyperon_to_atom(
            &HyperonAtom::Expression {
                children: vec![
                    HyperonAtom::Symbol { name: "+".to_string() },
                    HyperonAtom::Grounded { type_text: "Number".to_string() },
                ],
            },
            id,
        )
        .unwrap();
    assert!(matches!(e.atom_type, AtomType::Expression { ref operator, ref operands } if operator == "+" && operands.is_empty()));

    let e2 = engine
        .hyperon_to_atom(
            &HyperonAtom::Expression { children: vec![HyperonAtom::Variable { name: "f".to_string() }] },
            id,
        )
        .unwrap();
    assert!(matches!(e2.atom_type, AtomType::Expression { ref operator, .. } if operator == "expr"));

    let e3 = engine.hyperon_to_atom(&HyperonAtom::Expression { children: vec![] }, id).unwrap();
    assert!(matches!(e3.atom_type, AtomType::Expression { ref operator, .. } if operator == "empty"));

    let g = engine
        .hyperon_to_atom(&HyperonAtom::Grounded { type_text: "Number".to_string() }, id)
        .unwrap();
    assert!(matches!(g.atom_type, AtomType::Symbol { ref name } if name == "grounded:Number"));
}

#[test]
fn goal_evaluation_takes_the_first_result() {
    let engine = InferenceEngine::new(&InferenceConfig::default()).unwrap();
    let goal = expr("(+ 2 3)");
    assert!(engine.evaluate_goal(&goal, 0, &vec![]).unwrap().is_none());
    let found = engine
        .evaluate_goal(
            &goal,
            3,
            &vec![
                HyperonAtom::Symbol { name: "five".to_string() },
                HyperonAtom::Symbol { name: "other".to_string() },
            ],
        )
        .unwrap()
        .unwrap();
    assert!(matches!(found.atom.atom_type, AtomType::Symbol { ref name } if name == "five"));
    assert_eq!(found.proof_steps.len(), 1);
    assert_eq!(found.proof_steps[0].rule, "goal-evaluation");
    assert_eq!(found.proof_steps[0].output, found.atom.id);
    assert!(found.proof_steps[0].inputs.is_empty());
    assert_eq!(found.proof_steps[0].description, "Evaluated goal at step 3: (+ 2 3)");
}

fn request(premises: &[&str], goal: Option<&str>, max_steps: Option<usize>) -> InferenceRequest {
    InferenceRequest {
        premises: premises.iter().map(|p| expr(p)).collect(),
        goal: goal.map(expr),
        max_steps,
        timeout_ms: None,
    }
}

#[test]
fn inference_without_goal_succeeds_at_once() {
    let engine = InferenceEngine::new(&InferenceConfig::default()).unwrap();
    let run = engine.start_inference(&request(
        &["(Inheritance Socrates Human)", "(Inheritance Human Mortal)"],
        None,
        None,
    ));
    assert_eq!(run.timeout_ms(), 5000);
    assert!(matches!(run.next_action(), InferenceAction::Finish));
    let result = run.finish(false, 12);
    assert!(result.success);
    assert!(result.conclusions.is_empty());
    assert_eq!(result.execution_time_ms, 12);
    assert_eq!(result.proof_steps.len(), 2);
    assert_eq!(result.proof_steps[0].rule, "add-premise");
    assert_eq!(result.proof_steps[0].description, "Added premise 0: (Inheritance Socrates Human)");
    assert_eq!(result.proof_steps[1].description, "Added premise 1: (Inheritance Human Mortal)");
    assert_ne!(result.proof_steps[0].output, result.proof_steps[1].output);
}

#[test]
fn inference_without_steps_does_not_succeed() {
    let engine = InferenceEngine::new(&InferenceConfig::default()).unwrap();
    let run = engine.start_inference(&request(&[], None, Some(0)));
    assert!(!run.finish(false, 0).success);
    let run = engine.start_inference(&request(&[], Some("(foo)"), Some(0)));
    assert!(matches!(run.next_action(), InferenceAction::Finish));
    assert!(!run.finish(false, 0).success);
}

#[test]
fn inference_with_goal_runs_until_a_result() {
    let config = InferenceConfig { max_steps: 3, timeout_ms: 10, optimize_patterns: false };
    let engine = InferenceEngine::new(&config).unwrap();
    let mut run = engine.start_inference(&request(&["(a)"], Some("(goal)"), None));
    assert_eq!(run.timeout_ms(), 10);
    match run.next_action() {
        InferenceAction::EvaluateGoal { expression, step } => {
            assert_eq!(expression, "(goal)");
            assert_eq!(step, 0);
        }
        InferenceAction::Finish => panic!("run should be in progress"),
    }
    run.goal_evaluated(&engine, Ok(vec![]));
    match run.next_action() {
        InferenceAction::EvaluateGoal { step, .. } => assert_eq!(step, 1),
        InferenceAction::Finish => panic!("run should be in progress"),
    }
    run.goal_evaluated(&engine, Ok(vec![HyperonAtom::Symbol { name: "yes".to_string() }]));
    assert!(matches!(run.next_action(), InferenceAction::Finish));
    let result = run.finish(false, 1);
    assert!(result.success);
    assert_eq!(result.conclusions.len(), 1);
    assert_eq!(result.proof_steps.len(), 2);
    assert_eq!(result.proof_steps[1].description, "Evaluated goal at step 1: (goal)");
    assert_eq!(result.proof_steps[1].output, result.conclusions[0].id);
}

#[test]
fn inference_with_goal_gives_up_after_max_steps() {
    let config = InferenceConfig { max_steps: 2, timeout_ms: 10, optimize_patterns: false };
    let engine = InferenceEngine::new(&config).unwrap();
    let mut run = engine.start_inference(&request(&[], Some("(goal)"), None));
    run.goal_evaluated(&engine, Ok(vec![]));
    run.goal_evaluated(&engine, Ok(vec![]));
    assert!(matches!(run.next_action(), InferenceAction::Finish));
    let result = run.finish(false, 0);
    assert!(!result.success);
    assert!(result.conclusions.is_empty());
    assert!(result.proof_steps.is_empty());
}

#[test]
fn inference_stops_on_evaluation_error_and_timeout() {
    let engine = InferenceEngine::new(&InferenceConfig::default()).unwrap();
    let mut run = engine.start_inference(&request(&[], Some("(goal)"), Some(10)));
    run.goal_evaluated(
        &engine,
        Err(OpenCogError::Evaluation { message: "bad".to_string() }),
    );
    assert!(matches!(run.next_action(), InferenceAction::Finish));
    assert!(!run.finish(false, 0).success);

    let mut run = engine.start_inference(&request(&[], Some("(goal)"), Some(10)));
    run.goal_evaluated(&engine, Ok(vec![HyperonAtom::Symbol { name: "yes".to_string() }]));
    let result = run.finish(true, 5000);
    assert!(!result.success);
    assert_eq!(result.conclusions.len(), 1);
}

#[test]
fn flatten_keeps_order() {
    assert_eq!(flatten_results(vec![vec![1, 2], vec![], vec![3]]), vec![1, 2, 3]);
    assert_eq!(flatten_results::<u8>(vec![]), Vec::<u8>::new());
}

#[test]
fn error_messages() {
    assert_eq!(OpenCogError::AtomSpaceNotInitialized.message(), "AtomSpace not initialized");
    assert_eq!(OpenCogError::AtomSpaceAlreadyInitialized.message(), "AtomSpace already initialized");
    assert_eq!(
        OpenCogError::InferenceEngineNotInitialized.message(),
        "Inference engine not initialized"
    );
    assert_eq!(
        OpenCogError::InferenceEngineAlreadyInitialized.message(),
        "Inference engine already initialized"
    );
    assert_eq!(
        OpenCogError::Evaluation { message: "oops".to_string() }.message(),
        "Evaluation error: oops"
    );
}

#[test]
fn configuration_defaults() {
    let c = OpenCogConfig::default();
    assert!(!c.enabled);
    assert_eq!(c.atomspace.initial_size, 1000);
    assert!(!c.atomspace.persistence);
    assert!(c.atomspace.persistence_path.is_none());
    assert_eq!(c.inference.max_steps, 1000);
    assert_eq!(c.inference.timeout_ms, 5000);
    assert!(c.inference.optimize_patterns);
    let copy = c.clone();
    assert_eq!(copy.inference, c.inference);
    let a = AtomSpaceConfig { initial_size: 3, persistence: true, persistence_path: Some("p".to_string()) };
    let b = a.clone();
    assert_eq!(b.persistence_path.as_deref(), Some("p"));
    assert_eq!(AtomKind::Link.label(), "Link");
}

#[test]
fn removal_request_names_its_atom() {
    let id = atom_id_from_field(Some("550e8400-e29b-41d4-a716-446655440000")).unwrap();
    assert_eq!(id, AtomId(0x550e8400_e29b_41d4_a716_446655440000));
    let simple = atom_id_from_field(Some("550e8400e29b41d4a716446655440000")).unwrap();
    assert_eq!(simple, id);
    assert!(matches!(atom_id_from_field(Some("not-a-uuid")), Err(ApiFailure::InvalidAtomId)));
    assert!(matches!(atom_id_from_field(None), Err(ApiFailure::MissingAtomId)));
    assert!(matches!(atom_id_from_parsed(Some(3)), Ok(AtomId(3))));
    let braced = atom_id_from_field(Some("{550E8400-E29B-41D4-A716-446655440000}")).unwrap();
    assert_eq!(braced, id);
    let urn = atom_id_from_field(Some("URN:uuid:550e8400-e29b-41d4-a716-446655440000")).unwrap();
    assert_eq!(urn, id);
    assert!(matches!(
        atom_id_from_field(Some("550e8400-e29b-41d4-a716-44665544000g")),
        Err(ApiFailure::InvalidAtomId)
    ));
    assert!(matches!(
        atom_id_from_field(Some("550e8400+e29b-41d4-a716-446655440000")),
        Err(ApiFailure::InvalidAtomId)
    ));
}

#[test]
fn failures_answer_with_status_and_text() {
    let f = ApiFailure::InvalidBody { body: RequestBody::Atom, detail: "eof".to_string() };
    assert_eq!(f.status(), 400);
    assert_eq!(f.message(), "Invalid atom format: eof");
    let f = ApiFailure::InvalidBody { body: RequestBody::QueryPattern, detail: "x".to_string() };
    assert_eq!(f.message(), "Invalid query pattern: x");
    assert_eq!(ApiFailure::MissingAtomId.status(), 400);
    assert_eq!(ApiFailure::MissingAtomId.message(), "Missing atom_id field");
    assert_eq!(ApiFailure::InvalidAtomId.message(), "Invalid atom_id format");
    let f = ApiFailure::AtomSpaceUnavailable { detail: "AtomSpace not initialized".to_string() };
    assert_eq!(f.status(), 503);
    assert_eq!(f.message(), "AtomSpace not initialized: AtomSpace not initialized");
    let f = ApiFailure::OperationFailed { detail: "boom".to_string() };
    assert_eq!(f.status(), 500);
    assert_eq!(f.message(), "boom");
    assert_eq!(evaluation_echo("(+ 2 3)"), "Evaluated: (+ 2 3)");
}

#[test]
fn query_honours_max_results() {
    let mut space = AtomSpaceManager::new(&AtomSpaceConfig::default()).unwrap();
    space.add_atom(symbol("Human")).unwrap();
    space.add_atom(symbol("Animal")).unwrap();
    space.add_atom(symbol("Rock")).unwrap();
    let text = "(Inheritance Human Animal)";
    let mut capped = query_for(text);
    capped.max_results = Some(0);
    let r = space.query(capped).unwrap();
    assert!(r.matches.is_empty());
    assert!(r.bindings.is_empty());

    let mut capped = query_for(text);
    capped.max_results = Some(1);
    let r = space.query(capped).unwrap();
    assert_eq!(r.matches.len(), 1);
    assert_eq!(r.bindings.len(), 1);
    assert!(matches!(r.matches[0].atom_type, AtomType::Symbol { ref name } if name == "Human" || name == "Animal"));

    let mut capped = query_for(text);
    capped.max_results = Some(10);
    let r = space.query(capped).unwrap();
    assert_eq!(r.matches.len(), 2);
    assert_eq!(r.bindings.len(), 2);
    assert!(r.bindings.iter().all(|b| b.is_empty()));

    let r = space.query(query_for(text)).unwrap();
    assert_eq!(r.matches.len(), 2);
}
