use trdelnik::Error;
use trdelnik::Idl;
use trdelnik::IdlProgram;
use trdelnik::assembler::assemble;
use trdelnik::assembler::try_join;

fn program(name: &str) -> IdlProgram {
    IdlProgram { name: name.to_string(), description: format!("idl of {name}") }
}

#[test]
fn all_successes_assemble_one_entry_per_program() {
    let results = vec![Ok(program("a")), Ok(program("b")), Ok(program("c"))];
    let idl = assemble(results).unwrap();
    assert_eq!(idl, Idl { programs: vec![program("a"), program("b"), program("c")] });
}

#[test]
fn no_programs_assemble_an_empty_description() {
    let idl = assemble(Vec::new()).unwrap();
    assert_eq!(idl.programs, Vec::new());
}

#[test]
fn a_single_failure_is_reported_and_no_description_is() {
    let results = vec![
        Ok(program("a")),
        Err(Error::ReadProgramCodeFailed("error[E0000]: bad".to_string())),
        Ok(program("c")),
    ];
    let r = assemble(results);
    assert_eq!(r, Err(Error::ReadProgramCodeFailed("error[E0000]: bad".to_string())));
}

#[test]
fn the_earliest_of_several_failures_wins() {
    let results: Vec<Result<IdlProgram, Error>> = vec![
        Err(Error::Utf8Error),
        Err(Error::ReadProgramCodeFailed("later".to_string())),
    ];
    assert_eq!(try_join(results), Err(Error::Utf8Error));
}

#[test]
fn join_keeps_the_order_of_the_values() {
    let results: Vec<Result<u64, Error>> = vec![Ok(3), Ok(1), Ok(2)];
    assert_eq!(try_join(results), Ok(vec![3, 1, 2]));
}
