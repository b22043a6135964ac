use spectra::render::block::{Block, Mangler, Visit};
use spectra::render::input::{Input, Role, RGBAU, RF};
use spectra::render::output::Output;
use spectra::render::shader::ast::{Identifier, TypeName};
use spectra::render::input::RGBF;

#[test]
fn block_construction() {
    let inputs = vec![Input::new::<RF, _>("time", Role::Parameter), Input::new::<RGBAU, _>("bias", Role::Pipeline)];
    let outputs = vec![Output::new::<RGBF, _>("color")];
    let block = Block::new("simple", inputs, outputs, Vec::new());
    assert_eq!(block.id, "simple");
    assert_eq!(block.inputs.len(), 2);
    assert_eq!(block.outputs, vec![Output::new::<RGBF, _>("color")]);
    assert!(block.code.is_empty());
}

#[test]
fn mangling_type_names() {
    let mut m = Mangler::new("Blur");
    let mut t = TypeName("In".to_owned());
    assert_eq!(m.visit_type_name(&mut t), Visit::Parent);
    assert_eq!(t, TypeName("In_Blur".to_owned()));
    let mut t = TypeName("Out".to_owned());
    m.visit_type_name(&mut t);
    assert_eq!(t, TypeName("Out_Blur".to_owned()));
    let mut t = TypeName("call".to_owned());
    m.visit_type_name(&mut t);
    assert_eq!(t, TypeName("call".to_owned()));
    let mut t = TypeName("Other".to_owned());
    m.visit_type_name(&mut t);
    assert_eq!(t, TypeName("Other".to_owned()));
}

#[test]
fn mangling_identifiers() {
    let mut m = Mangler::new("simple");
    for (from, to) in [("In", "In_simple"), ("Out", "Out_simple"), ("call", "call_simple"), ("x", "x"), ("Input", "Input")].iter() {
        let mut i = Identifier((*from).to_owned());
        assert_eq!(m.visit_identifier(&mut i), Visit::Parent);
        assert_eq!(i, Identifier((*to).to_owned()));
    }
}

#[test]
fn mangling_twice_changes_nothing_more() {
    let mut m = Mangler::new("Blur");
    let mut t = TypeName("Out".to_owned());
    m.visit_type_name(&mut t);
    m.visit_type_name(&mut t);
    assert_eq!(t, TypeName("Out_Blur".to_owned()));
    let mut i = Identifier("call".to_owned());
    m.visit_identifier(&mut i);
    m.visit_identifier(&mut i);
    assert_eq!(i, Identifier("call_Blur".to_owned()));
}
