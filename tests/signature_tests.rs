use semver::Version;
use sunscreen_compiler_common::{
    capture_signature, Ambient, CallSignature, Context, RequiredKeys, ReturnDescriptor, Type,
};

#[derive(Clone, Debug, PartialEq, Eq)]
enum Op {
    InputCiphertext,
}

fn cipher(name: &str) -> Type {
    Type {
        name: name.to_owned(),
        version: Version::new(1, 2, 3),
        is_encrypted: true,
    }
}

#[test]
fn three_cipher_inputs_compile_to_three_input_nodes() {
    let t = cipher("sunscreen::types::bfv::Signed");
    let args = vec![t.clone(), t.clone(), t.clone()];
    let signature = capture_signature(args, vec![]);
    assert_eq!(
        signature,
        CallSignature {
            arguments: vec![t.clone(), t.clone(), t],
            returns: vec![],
            num_ciphertexts: vec![],
        }
    );

    let mut state: Ambient<Op, ()> = Ambient::new();
    state.install(Context::new(()));
    for _ in &signature.arguments {
        state.current_mut().add_node(Op::InputCiphertext);
    }
    let graph = state.teardown().unwrap().into_graph();
    assert_eq!(graph.node_count(), 3);
    assert_eq!(graph.edge_count(), 0);
    assert!(graph.nodes().iter().all(|n| n.operation == Op::InputCiphertext));
}

#[test]
fn signature_keeps_order_and_ciphertext_counts() {
    let a = cipher("A");
    let b = Type {
        is_encrypted: false,
        ..cipher("B")
    };
    let c = cipher("C");
    let signature = capture_signature(
        vec![a.clone(), b.clone()],
        vec![
            ReturnDescriptor {
                ty: c.clone(),
                num_ciphertexts: 2,
            },
            ReturnDescriptor {
                ty: a.clone(),
                num_ciphertexts: 1,
            },
        ],
    );
    assert_eq!(signature.arguments, vec![a.clone(), b]);
    assert_eq!(signature.returns, vec![c, a]);
    assert_eq!(signature.num_ciphertexts, vec![2, 1]);
}

#[test]
fn type_descriptor_round_trips_through_signature() {
    let t = Type {
        name: "foo::Bar".to_owned(),
        version: Version::new(42, 24, 6),
        is_encrypted: false,
    };
    let signature = capture_signature(vec![t.clone()], vec![]);
    assert_eq!(signature.arguments[0].name, t.name);
    assert_eq!(signature.arguments[0].version, t.version);
}

#[test]
fn required_keys_are_distinct() {
    assert_ne!(RequiredKeys::Galois, RequiredKeys::Relin);
    assert_ne!(RequiredKeys::Relin, RequiredKeys::PublicKey);
    assert_eq!(RequiredKeys::PublicKey, RequiredKeys::PublicKey.clone());
}
