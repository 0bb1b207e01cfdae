use crate::common::Idx;
use crate::ir::BasicBlock;
use crate::ir::BasicBlockData;
use crate::ir::Body;
use crate::ir::BodyView;
use crate::ir::Instruction;
use crate::ir::Local;
use crate::ir::Lvalue;
use crate::ir::Operand;
use crate::ir::Rvalue;
use crate::ir::Terminator;
use vstd::prelude::*;

verus! {

/// Builds one body: hands out its local slots and its blocks, and lends
/// itself to the builders that fill the blocks.
///
/// The view of a builder is the body as it stands.
pub struct BodyBuilder {
    body: Body,
}

/// Fills one basic block. Appending an instruction keeps the builder;
/// setting the terminator uses it up.
pub struct BlockBuilder<'b> {
    pub body: &'b mut BodyBuilder,
    pub basic_block: BasicBlock,
}

/// Gathers the parts of a call terminator.
pub struct CallBuilder<'b, 'c> {
    pub block: &'c mut BlockBuilder<'b>,
    pub target: Operand,
    pub goto: BasicBlock,
    pub args: Vec<Operand>,
    pub rvp: Option<Lvalue>,
}

/// Gathers the parts of a switch terminator.
pub struct SwitchBuilder<'b, 's> {
    pub block: &'s mut BlockBuilder<'b>,
    pub source: Operand,
    pub cases: Vec<(u64, BasicBlock)>,
}

/// What a call builder has gathered: the callee, the block at which the
/// call goes on, the arguments in order and the place for the result.
pub ghost struct CallView {
    pub target: Operand,
    pub goto: BasicBlock,
    pub args: Seq<Operand>,
    pub rvp: Option<Lvalue>,
}

impl CallView {
    /// A call of `target` that goes on at `goto`, without arguments and
    /// without a place for its result.
    pub open spec fn fresh(target: Operand, goto: BasicBlock) -> CallView {
        CallView { target, goto, args: Seq::empty(), rvp: None }
    }

    /// This call with `arg` behind its arguments.
    pub open spec fn with_arg(self, arg: Operand) -> CallView {
        CallView { args: self.args.push(arg), ..self }
    }

    /// This call with the operands of `args`, in order, behind its
    /// arguments.
    pub open spec fn with_args(self, args: Seq<Operand>) -> CallView {
        CallView { args: self.args + args, ..self }
    }

    /// This call with `rvp` as the place for its result.
    pub open spec fn with_rvp(self, rvp: Lvalue) -> CallView {
        CallView { rvp: Some(rvp), ..self }
    }

    /// Whether `terminator` is this call.
    pub open spec fn is_terminator(self, terminator: Terminator) -> bool {
        match terminator {
            Terminator::Call { target, args, rvp, goto } => {
                &&& target == self.target
                &&& args@ == self.args
                &&& rvp == self.rvp
                &&& goto == self.goto
            },
            _ => false,
        }
    }

    /// A call that is given two arguments and then a place for its result
    /// holds exactly these two arguments, in the order in which they came,
    /// and that place.
    pub proof fn lemma_gathers_in_order(
        target: Operand,
        goto: BasicBlock,
        first: Operand,
        second: Operand,
        rvp: Lvalue,
    )
        ensures
            Self::fresh(target, goto).with_arg(first).with_arg(second).with_rvp(rvp) == (CallView {
                target,
                goto,
                args: seq![first, second],
                rvp: Some(rvp),
            }),
    {
        assert(Seq::<Operand>::empty().push(first).push(second) =~= seq![first, second]);
    }

    /// Giving arguments one by one is giving them at once, and the place
    /// for the result may be set before or after an argument.
    pub proof fn lemma_steps_agree(self, args: Seq<Operand>, arg: Operand, rvp: Lvalue)
        ensures
            self.with_args(args).with_arg(arg) == self.with_args(args.push(arg)),
            self.with_args(Seq::empty()) == self,
            self.with_rvp(rvp).with_arg(arg) == self.with_arg(arg).with_rvp(rvp),
    {
        assert((self.args + args).push(arg) =~= self.args + args.push(arg));
        assert(self.args + Seq::<Operand>::empty() =~= self.args);
    }
}

/// What a switch builder has gathered: the operand that is switched on and
/// the cases in order, each a value and the block that it leads to.
pub ghost struct SwitchView {
    pub source: Operand,
    pub cases: Seq<(u64, BasicBlock)>,
}

impl SwitchView {
    /// A switch on `source` without a case.
    pub open spec fn fresh(source: Operand) -> SwitchView {
        SwitchView { source, cases: Seq::empty() }
    }

    /// This switch with the case that sends `case` to `target` behind its
    /// cases.
    pub open spec fn with_case(self, case: u64, target: BasicBlock) -> SwitchView {
        SwitchView { cases: self.cases.push((case, target)), ..self }
    }

    /// This switch with the cases of `cases`, in order, behind its cases.
    pub open spec fn with_cases(self, cases: Seq<(u64, BasicBlock)>) -> SwitchView {
        SwitchView { cases: self.cases + cases, ..self }
    }

    /// Whether `terminator` is this switch.
    pub open spec fn is_terminator(self, terminator: Terminator) -> bool {
        match terminator {
            Terminator::Switch { source, cases } => source == self.source && cases@ == self.cases,
            _ => false,
        }
    }

    /// A switch that is given two cases holds exactly these two, in the
    /// order in which they came.
    pub proof fn lemma_gathers_in_order(
        source: Operand,
        first: (u64, BasicBlock),
        second: (u64, BasicBlock),
    )
        ensures
            Self::fresh(source).with_case(first.0, first.1).with_case(second.0, second.1) == (
            SwitchView { source, cases: seq![first, second] }),
    {
        assert(Seq::<(u64, BasicBlock)>::empty().push(first).push(second) =~= seq![first, second]);
    }

    /// Giving cases one by one is giving them at once.
    pub proof fn lemma_steps_agree(self, cases: Seq<(u64, BasicBlock)>, case: u64, target: BasicBlock)
        ensures
            self.with_cases(cases).with_case(case, target) == self.with_cases(
                cases.push((case, target)),
            ),
            self.with_cases(Seq::empty()) == self,
    {
        assert((self.cases + cases).push((case, target)) =~= self.cases + cases.push(
            (case, target),
        ));
        assert(self.cases + Seq::<(u64, BasicBlock)>::empty() =~= self.cases);
    }
}

impl<'b, 'c> View for CallBuilder<'b, 'c> {
    type V = CallView;

    open spec fn view(&self) -> CallView {
        CallView { target: self.target, goto: self.goto, args: self.args@, rvp: self.rvp }
    }
}

impl<'b, 's> View for SwitchBuilder<'b, 's> {
    type V = SwitchView;

    open spec fn view(&self) -> SwitchView {
        SwitchView { source: self.source, cases: self.cases@ }
    }
}

impl View for BodyBuilder {
    type V = BodyView;

    closed spec fn view(&self) -> BodyView {
        self.body@
    }
}

impl BodyBuilder {
    /// The slot of the return value place.
    pub open spec fn spec_rvp() -> Local {
        Local::spec_new(0)
    }

    /// The slot of argument number `n`, counted from zero.
    pub open spec fn spec_arg(n: usize) -> Local
        recommends
            n < usize::MAX,
    {
        Local::spec_new((n + 1) as usize)
    }

    /// A builder for the body of a function of `args` arguments: no block
    /// yet, and the slots of the return value place and of the arguments.
    pub fn new(args: usize) -> (builder: BodyBuilder)
        requires
            args < usize::MAX,
        ensures
            builder@ == (BodyView { blocks: Seq::empty(), locals: (args + 1) as nat }),
    {
        let mut body = Body::empty();
        body.push_local();
        let mut made: usize = 0;
        while made < args
            invariant
                made <= args,
                body@ == (BodyView { blocks: Seq::empty(), locals: (made + 1) as nat }),
            decreases args - made,
        {
            body.push_local();
            made += 1;
        }
        BodyBuilder { body }
    }

    pub fn rvp(&self) -> (local: Local)
        ensures
            local == Self::spec_rvp(),
            local.spec_index() == 0,
    {
        Local::new(0)
    }

    pub fn arg(&self, n: usize) -> (local: Local)
        requires
            n < usize::MAX,
        ensures
            local == Self::spec_arg(n),
            local.spec_index() == n + 1,
    {
        Local::new(1 + n)
    }

    /// Adds a temporary behind the slots there are and returns its index.
    pub fn fresh_local(&mut self) -> (local: Local)
        ensures
            final(self)@ == old(self)@.with_local(),
            local == Local::spec_new(old(self)@.locals as usize),
            local.spec_index() == old(self)@.locals,
    {
        self.body.push_local()
    }

    /// Adds an empty block without a terminator behind the blocks there are
    /// and returns its index.
    pub fn fresh_block(&mut self) -> (basic_block: BasicBlock)
        ensures
            final(self)@ == old(self)@.with_block(),
            basic_block == BasicBlock::spec_new(old(self)@.blocks.len() as usize),
            basic_block.spec_index() == old(self)@.blocks.len(),
            final(self)@.has_block(basic_block),
    {
        self.body.push_block(BasicBlockData { instructions: vec![], terminator: None })
    }

    /// Lends this builder to a builder for the block `basic_block`.
    pub fn builder_for_block<'b>(&'b mut self, basic_block: BasicBlock) -> (block: BlockBuilder<'b>)
        ensures
            block.body@ == old(self)@,
            *final(block.body) == *final(self),
            block.basic_block == basic_block,
    {
        BlockBuilder::new(self, basic_block)
    }

    /// The body as it stands. Whether each of its blocks has a terminator
    /// is for the caller to have seen to.
    pub fn build(self) -> (body: Body)
        ensures
            body@ == self@,
    {
        self.body
    }

    /// The slot of the return value place is none of the arguments' slots,
    /// and two arguments have two slots.
    pub proof fn lemma_slots_distinct(n: usize, m: usize)
        requires
            n < usize::MAX,
            m < usize::MAX,
        ensures
            Self::spec_arg(n) != Self::spec_rvp(),
            n != m ==> Self::spec_arg(n) != Self::spec_arg(m),
    {
        Local::lemma_new_index(0);
        Local::lemma_new_index((n + 1) as usize);
        Local::lemma_new_index((m + 1) as usize);
    }
}

impl<'b> BlockBuilder<'b> {
    /// Whether the block that this builder fills is one of its body's.
    pub open spec fn wf(&self) -> bool {
        self.body@.has_block(self.basic_block)
    }

    pub fn new(body: &'b mut BodyBuilder, basic_block: BasicBlock) -> (block: BlockBuilder<'b>)
        ensures
            block.body@ == old(body)@,
            *final(block.body) == *final(body),
            block.basic_block == basic_block,
    {
        BlockBuilder { body, basic_block }
    }

    /// The block that this builder fills, open to change.
    fn block_data_mut(&mut self) -> (block: &mut BasicBlockData)
        requires
            old(self).wf(),
        ensures
            block@ == old(self).body@.block(old(self).basic_block),
            final(self).body@ == (BodyView {
                blocks: old(self).body@.blocks.update(
                    old(self).basic_block.spec_index() as int,
                    final(block)@,
                ),
                locals: old(self).body@.locals,
            }),
            final(self).basic_block == old(self).basic_block,
            *final(final(self).body) == *final(old(self).body),
    {
        self.body.body.block_mut(self.basic_block)
    }

    /// Appends an instruction that does nothing.
    pub fn nop(&mut self)
        requires
            old(self).wf(),
        ensures
            final(self).body@ == old(self).body@.with_instruction(
                old(self).basic_block,
                Instruction::Nop,
            ),
            final(self).basic_block == old(self).basic_block,
            *final(final(self).body) == *final(old(self).body),
    {
        self.block_data_mut().instructions.push(Instruction::Nop)
    }

    /// Appends the instruction that stores `rvalue` into `lvalue`.
    pub fn assign(&mut self, lvalue: Lvalue, rvalue: Rvalue)
        requires
            old(self).wf(),
        ensures
            final(self).body@ == old(self).body@.with_instruction(
                old(self).basic_block,
                Instruction::Assign(Box::new((lvalue, rvalue))),
            ),
            final(self).basic_block == old(self).basic_block,
            *final(final(self).body) == *final(old(self).body),
    {
        self.block_data_mut().instructions.push(Instruction::Assign(Box::new((lvalue, rvalue))))
    }

    /// Ends the block with a return.
    pub fn ret(self) -> (basic_block: BasicBlock)
        requires
            self.wf(),
        ensures
            basic_block == self.basic_block,
            final(self.body)@ == old(self.body)@.with_terminator(
                self.basic_block,
                Terminator::Return,
            ),
    {
        let mut block = self;
        block.block_data_mut().terminator = Some(Terminator::Return);
        block.basic_block
    }

    /// Ends the block with the claim that control never gets there.
    pub fn unreachable(self) -> (basic_block: BasicBlock)
        requires
            self.wf(),
        ensures
            basic_block == self.basic_block,
            final(self.body)@ == old(self.body)@.with_terminator(
                self.basic_block,
                Terminator::Unreachable,
            ),
    {
        let mut block = self;
        block.block_data_mut().terminator = Some(Terminator::Unreachable);
        block.basic_block
    }

    /// Ends the block with a jump to `target`.
    pub fn goto(self, target: BasicBlock) -> (basic_block: BasicBlock)
        requires
            self.wf(),
        ensures
            basic_block == self.basic_block,
            final(self.body)@ == old(self.body)@.with_terminator(
                self.basic_block,
                Terminator::Goto(target),
            ),
    {
        let mut block = self;
        block.block_data_mut().terminator = Some(Terminator::Goto(target));
        block.basic_block
    }
}

impl<'b> BlockBuilder<'b> {
    /// Ends the block with a call of `target` that goes on at `goto`.
    ///
    /// `builder` is handed a fresh call builder and gives the call its
    /// arguments and the place for its result. It may add locals, blocks
    /// and instructions on the way, and must leave the call builder on the
    /// block it was made for. The terminator is the one that the call
    /// builder has gathered when `builder` comes back.
    pub fn call(
        self,
        target: Operand,
        goto: BasicBlock,
        builder: impl FnOnce(&mut CallBuilder),
    ) -> (basic_block: BasicBlock)
        requires
            self.wf(),
            forall|call: &mut CallBuilder|
                call.spec_fresh(self, target, goto) ==> call_requires(builder, (call,)),
            forall|call: &mut CallBuilder|
                call.spec_fresh(self, target, goto) && call_ensures(builder, (call,), ()) ==> {
                    &&& *final(final(call).block) == *final(call.block)
                    &&& *final(final(call).block.body) == *final(call.block.body)
                    &&& final(call).block.basic_block == call.block.basic_block
                    &&& final(call).block.wf()
                },
        ensures
            basic_block == self.basic_block,
            exists|call: &mut CallBuilder|
                {
                    &&& call.spec_fresh(self, target, goto)
                    &&& call_ensures(builder, (call,), ())
                    &&& final(self.body)@ == final(call).block.body@.with_terminator(
                        self.basic_block,
                        final(call).spec_terminator(),
                    )
                },
    {
        let mut block = self;
        let mut call_builder = CallBuilder::new(&mut block, target, goto);
        assert(call_builder.spec_fresh(self, target, goto));
        builder(&mut call_builder);
        let terminator = call_builder.build();
        block.block_data_mut().terminator = Some(terminator);
        block.basic_block
    }
}

impl<'b, 'c> CallBuilder<'b, 'c> {
    /// Whether this builder is as `new` makes it for `block`, `target` and
    /// `goto`.
    pub open spec fn spec_fresh(self, block: BlockBuilder<'b>, target: Operand, goto: BasicBlock) -> bool {
        &&& *self.block == block
        &&& self@ == CallView::fresh(target, goto)
    }

    /// The terminator that this builder has gathered.
    pub open spec fn spec_terminator(self) -> Terminator {
        Terminator::Call { target: self.target, args: self.args, rvp: self.rvp, goto: self.goto }
    }

    /// A builder for a call of `target` that goes on at `goto`: no argument
    /// yet, and no place for the result.
    pub fn new(block: &'c mut BlockBuilder<'b>, target: Operand, goto: BasicBlock) -> (call:
        CallBuilder<'b, 'c>)
        ensures
            *call.block == *old(block),
            *final(call.block) == *final(block),
            call@ == CallView::fresh(target, goto),
    {
        CallBuilder { block, target, goto, args: vec![], rvp: None }
    }

    /// Adds `arg` behind the arguments there are.
    pub fn arg(&mut self, arg: Operand)
        ensures
            final(self)@ == old(self)@.with_arg(arg),
            *final(self).block == *old(self).block,
            *final(final(self).block) == *final(old(self).block),
    {
        self.args.push(arg)
    }

    /// Adds the operands of `args`, in order, behind the arguments there are.
    pub fn extend_args(&mut self, args: Vec<Operand>)
        ensures
            final(self)@ == old(self)@.with_args(args@),
            *final(self).block == *old(self).block,
            *final(final(self).block) == *final(old(self).block),
    {
        let mut args = args;
        self.args.append(&mut args)
    }

    /// Makes `rvp` the place that takes the call's result.
    pub fn set_rvp(&mut self, rvp: Lvalue)
        ensures
            final(self)@ == old(self)@.with_rvp(rvp),
            *final(self).block == *old(self).block,
            *final(final(self).block) == *final(old(self).block),
    {
        self.rvp = Some(rvp)
    }

    /// The call terminator of what was gathered. The block's builder is
    /// left as it stands.
    pub fn build(self) -> (terminator: Terminator)
        ensures
            terminator == self.spec_terminator(),
            self@.is_terminator(terminator),
            *final(self.block) == *old(self.block),
    {
        Terminator::Call { target: self.target, args: self.args, rvp: self.rvp, goto: self.goto }
    }
}

impl<'b, 's> SwitchBuilder<'b, 's> {
    /// The terminator that this builder has gathered.
    pub open spec fn spec_terminator(self) -> Terminator {
        Terminator::Switch { source: self.source, cases: self.cases }
    }

    /// A builder for a switch on `source`, without a case yet.
    pub fn new(block: &'s mut BlockBuilder<'b>, source: Operand) -> (switch: SwitchBuilder<'b, 's>)
        ensures
            *switch.block == *old(block),
            *final(switch.block) == *final(block),
            switch@ == SwitchView::fresh(source),
    {
        SwitchBuilder { block, source, cases: vec![] }
    }

    /// Adds the case that sends the value `case` to `target`, behind the
    /// cases there are.
    pub fn case(&mut self, case: u64, target: BasicBlock)
        ensures
            final(self)@ == old(self)@.with_case(case, target),
            *final(self).block == *old(self).block,
            *final(final(self).block) == *final(old(self).block),
    {
        self.cases.push((case, target))
    }

    /// Adds the cases of `cases`, in order, behind the cases there are.
    pub fn extend_cases(&mut self, cases: Vec<(u64, BasicBlock)>)
        ensures
            final(self)@ == old(self)@.with_cases(cases@),
            *final(self).block == *old(self).block,
            *final(final(self).block) == *final(old(self).block),
    {
        let mut cases = cases;
        self.cases.append(&mut cases)
    }

    /// The switch terminator of what was gathered: the cases in the order
    /// in which they came, and no other branch. The block's builder is left
    /// as it stands.
    pub fn build(self) -> (terminator: Terminator)
        ensures
            terminator == self.spec_terminator(),
            self@.is_terminator(terminator),
            *final(self.block) == *old(self.block),
    {
        Terminator::Switch { source: self.source, cases: self.cases }
    }
}

impl<'b> std::ops::Deref for BlockBuilder<'b> {
    type Target = BodyBuilder;

    fn deref(&self) -> (body: &BodyBuilder)
        ensures
            *body == *old(self.body),
    {
        self.body
    }
}

impl<'b> std::ops::DerefMut for BlockBuilder<'b> {
    fn deref_mut(&mut self) -> (body: &mut BodyBuilder)
        ensures
            *body == *old(self).body,
            *final(self).body == *final(body),
            final(self).basic_block == old(self).basic_block,
            *final(final(self).body) == *final(old(self).body),
    {
        self.body
    }
}

impl<'b, 'c> std::ops::Deref for CallBuilder<'b, 'c> {
    type Target = BlockBuilder<'b>;

    fn deref(&self) -> (block: &BlockBuilder<'b>)
        ensures
            *block == *old(self.block),
    {
        self.block
    }
}

impl<'b, 'c> std::ops::DerefMut for CallBuilder<'b, 'c> {
    fn deref_mut(&mut self) -> (block: &mut BlockBuilder<'b>)
        ensures
            *block == *old(self).block,
            *final(self).block == *final(block),
            *final(final(self).block) == *final(old(self).block),
            final(self)@ == old(self)@,
    {
        self.block
    }
}

impl<'b, 's> std::ops::Deref for SwitchBuilder<'b, 's> {
    type Target = BlockBuilder<'b>;

    fn deref(&self) -> (block: &BlockBuilder<'b>)
        ensures
            *block == *old(self.block),
    {
        self.block
    }
}

impl<'b, 's> std::ops::DerefMut for SwitchBuilder<'b, 's> {
    fn deref_mut(&mut self) -> (block: &mut BlockBuilder<'b>)
        ensures
            *block == *old(self).block,
            *final(self).block == *final(block),
            *final(final(self).block) == *final(old(self).block),
            final(self)@ == old(self)@,
    {
        self.block
    }
}

} // verus!
