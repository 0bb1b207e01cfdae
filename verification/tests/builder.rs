use body_ir::common::Idx;
use body_ir::ir::builder::BlockBuilder;
use body_ir::ir::builder::BodyBuilder;
use body_ir::ir::builder::CallBuilder;
use body_ir::ir::builder::SwitchBuilder;
use body_ir::ir::BasicBlock;
use body_ir::ir::Constant;
use body_ir::ir::DefId;
use body_ir::ir::Instruction;
use body_ir::ir::Local;
use body_ir::ir::Lvalue;
use body_ir::ir::Operand;
use body_ir::ir::Projection;
use body_ir::ir::Rvalue;
use body_ir::ir::Terminator;

fn place(root: Local) -> Lvalue {
    Lvalue { root, projections: vec![] }
}

fn scalar(value: u64) -> Operand {
    Operand::Constant(Box::new(Constant::Scalar(value)))
}

#[test]
fn new_builder_has_rvp_and_argument_slots() {
    for args in [0usize, 1, 2, 7] {
        let body = BodyBuilder::new(args).build();
        assert_eq!(body.locals().len(), args + 1);
        assert_eq!(body.blocks().len(), 0);
    }
}

#[test]
fn argument_slots_are_distinct() {
    let builder = BodyBuilder::new(2);
    assert_eq!(builder.rvp().index(), 0);
    assert_eq!(builder.arg(0).index(), 1);
    assert_eq!(builder.arg(1).index(), 2);
    assert_ne!(builder.arg(0), builder.rvp());
    assert_ne!(builder.arg(1), builder.rvp());
    assert_ne!(builder.arg(0), builder.arg(1));
}

#[test]
fn fresh_locals_follow_the_arguments() {
    let mut builder = BodyBuilder::new(2);
    assert_eq!(builder.fresh_local().index(), 3);
    assert_eq!(builder.fresh_local().index(), 4);
    let body = builder.build();
    assert_eq!(body.locals().len(), 5);
}

#[test]
fn fresh_blocks_are_empty_and_numbered_in_order() {
    let mut builder = BodyBuilder::new(0);
    let first = builder.fresh_block();
    let second = builder.fresh_block();
    assert_eq!(first.index(), 0);
    assert_eq!(second.index(), 1);
    let body = builder.build();
    assert_eq!(body.blocks().len(), 2);
    for block in body.blocks().values() {
        assert!(block.instructions.is_empty());
        assert_eq!(block.terminator, None);
    }
}

#[test]
fn returned_block_holds_what_was_appended() {
    let mut builder = BodyBuilder::new(1);
    let other = builder.fresh_block();
    let block = builder.fresh_block();
    let from = builder.arg(0);
    let to = builder.rvp();
    let mut filler = builder.builder_for_block(block);
    filler.nop();
    filler.assign(place(to), Rvalue::AddressOf(place(from)));
    filler.nop();
    let finished = filler.ret();
    assert_eq!(finished, block);
    let body = builder.build();
    let data = body.blocks().get(block).unwrap();
    assert_eq!(
        data.instructions,
        vec![
            Instruction::Nop,
            Instruction::Assign(Box::new((place(to), Rvalue::AddressOf(place(from))))),
            Instruction::Nop,
        ]
    );
    assert_eq!(data.terminator, Some(Terminator::Return));
    let untouched = body.blocks().get(other).unwrap();
    assert!(untouched.instructions.is_empty());
    assert_eq!(untouched.terminator, None);
}

#[test]
fn unreachable_and_goto_set_their_terminators() {
    let mut builder = BodyBuilder::new(0);
    let first = builder.fresh_block();
    let second = builder.fresh_block();
    assert_eq!(builder.builder_for_block(first).goto(second), first);
    assert_eq!(builder.builder_for_block(second).unreachable(), second);
    let body = builder.build();
    assert_eq!(body.blocks()[first].terminator, Some(Terminator::Goto(second)));
    assert_eq!(body.blocks()[second].terminator, Some(Terminator::Unreachable));
    assert!(body.blocks()[first].instructions.is_empty());
}

#[test]
fn call_stores_arguments_and_rvp() {
    let mut builder = BodyBuilder::new(2);
    let block = builder.fresh_block();
    let next = builder.fresh_block();
    let first = Operand::Copy(place(builder.arg(0)));
    let second = Operand::Move(place(builder.arg(1)));
    let result = place(builder.rvp());
    let callee = Operand::Constant(Box::new(Constant::Global(DefId::new(9))));
    let (first_in, second_in, result_in) = (first.clone(), second.clone(), result.clone());
    let finished = builder.builder_for_block(block).call(callee.clone(), next, |call| {
        call.arg(first_in);
        call.arg(second_in);
        call.set_rvp(result_in);
    });
    assert_eq!(finished, block);
    let body = builder.build();
    assert_eq!(
        body.blocks()[block].terminator,
        Some(Terminator::Call {
            target: callee,
            args: vec![first, second],
            rvp: Some(result),
            goto: next,
        })
    );
    assert!(body.blocks()[block].instructions.is_empty());
    assert_eq!(body.blocks()[next].terminator, None);
}

#[test]
fn call_without_arguments_has_no_rvp() {
    let mut builder = BodyBuilder::new(0);
    let block = builder.fresh_block();
    builder.builder_for_block(block).call(scalar(1), block, |_call| {});
    let body = builder.build();
    assert_eq!(
        body.blocks()[block].terminator,
        Some(Terminator::Call { target: scalar(1), args: vec![], rvp: None, goto: block })
    );
}

#[test]
fn call_builder_reaches_the_body() {
    let mut builder = BodyBuilder::new(0);
    let block = builder.fresh_block();
    builder.builder_for_block(block).call(scalar(1), block, |call| {
        let temporary = call.fresh_local();
        call.nop();
        call.arg(Operand::Copy(place(temporary)));
    });
    let body = builder.build();
    assert_eq!(body.locals().len(), 2);
    assert_eq!(body.blocks()[block].instructions, vec![Instruction::Nop]);
    assert_eq!(
        body.blocks()[block].terminator,
        Some(Terminator::Call {
            target: scalar(1),
            args: vec![Operand::Copy(place(Local::new(1)))],
            rvp: None,
            goto: block,
        })
    );
}

#[test]
fn call_builder_gathers_in_call_order() {
    let mut builder = BodyBuilder::new(0);
    let block = builder.fresh_block();
    let mut filler = builder.builder_for_block(block);
    let mut call = CallBuilder::new(&mut filler, scalar(0), block);
    call.arg(scalar(1));
    call.extend_args(vec![scalar(2), scalar(3)]);
    call.arg(scalar(4));
    call.set_rvp(place(Local::new(0)));
    call.set_rvp(Lvalue { root: Local::new(0), projections: vec![Projection::Deref] });
    assert_eq!(
        call.build(),
        Terminator::Call {
            target: scalar(0),
            args: vec![scalar(1), scalar(2), scalar(3), scalar(4)],
            rvp: Some(Lvalue { root: Local::new(0), projections: vec![Projection::Deref] }),
            goto: block,
        }
    );
}

#[test]
fn switch_holds_its_cases_in_order() {
    let mut builder = BodyBuilder::new(1);
    let block = builder.fresh_block();
    let one = builder.fresh_block();
    let two = builder.fresh_block();
    let source = Operand::Copy(place(builder.arg(0)));
    let mut filler = builder.builder_for_block(block);
    let mut switch = SwitchBuilder::new(&mut filler, source.clone());
    switch.case(1, one);
    switch.case(2, two);
    assert_eq!(
        switch.build(),
        Terminator::Switch { source, cases: vec![(1, one), (2, two)] }
    );
}

#[test]
fn switch_extend_cases_appends() {
    let mut builder = BodyBuilder::new(0);
    let block = builder.fresh_block();
    let mut filler = builder.builder_for_block(block);
    let mut switch = SwitchBuilder::new(&mut filler, scalar(5));
    switch.case(9, BasicBlock::new(0));
    switch.extend_cases(vec![(3, BasicBlock::new(0)), (9, BasicBlock::new(0))]);
    match switch.build() {
        Terminator::Switch { source, cases } => {
            assert_eq!(source, scalar(5));
            assert_eq!(
                cases,
                vec![(9, BasicBlock::new(0)), (3, BasicBlock::new(0)), (9, BasicBlock::new(0))]
            );
        }
        other => panic!("not a switch: {:?}", other),
    }
}

#[test]
fn block_builder_reaches_the_body_builder() {
    let mut builder = BodyBuilder::new(1);
    let block = builder.fresh_block();
    let mut filler = BlockBuilder::new(&mut builder, block);
    let temporary = filler.fresh_local();
    let source = filler.arg(0);
    filler.assign(place(temporary), Rvalue::Operand(Operand::Move(place(source))));
    filler.ret();
    let body = builder.build();
    assert_eq!(temporary.index(), 2);
    assert_eq!(body.locals().len(), 3);
    assert_eq!(body.blocks()[block].instructions.len(), 1);
}

#[test]
fn one_argument_body_assigns_then_returns() {
    let mut builder = BodyBuilder::new(1);
    let block = builder.fresh_block();
    let temporary = builder.fresh_local();
    let argument = builder.arg(0);
    let mut filler = builder.builder_for_block(block);
    filler.assign(place(temporary), Rvalue::Operand(Operand::Copy(place(argument))));
    filler.ret();
    let body = builder.build();
    assert_eq!(body.blocks().len(), 1);
    let data = &body.blocks()[BasicBlock::new(0)];
    assert_eq!(data.instructions.len(), 1);
    assert!(matches!(data.instructions[0], Instruction::Assign(_)));
    assert_eq!(
        data.instructions[0],
        Instruction::Assign(Box::new((
            place(Local::new(2)),
            Rvalue::Operand(Operand::Copy(place(Local::new(1)))),
        )))
    );
    assert_eq!(data.terminator, Some(Terminator::Return));
}
