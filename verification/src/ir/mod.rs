use crate::common::Idx;
use crate::common::IdxVec;
use vstd::prelude::*;

pub mod builder;

verus! {

/// Names a local slot of a body: the return value place, an argument or a
/// temporary.
#[derive(Copy, Clone, PartialEq, Eq, Hash, PartialOrd, Ord, Debug, Structural)]
pub struct Local {
    private: usize,
}

impl Idx for Local {
    closed spec fn spec_index(&self) -> usize {
        self.private
    }

    closed spec fn spec_new(index: usize) -> Self {
        Local { private: index }
    }

    proof fn lemma_new_index(index: usize) {
    }

    proof fn lemma_index_new(self) {
    }

    fn index(&self) -> usize {
        self.private
    }

    fn new(index: usize) -> Self {
        Local { private: index }
    }
}

/// Names a definition that lives outside any body, such as a function or a
/// global. What it stands for is for the table of definitions to say.
#[derive(Copy, Clone, PartialEq, Eq, Hash, PartialOrd, Ord, Debug, Structural)]
pub struct DefId {
    private: usize,
}

impl Idx for DefId {
    closed spec fn spec_index(&self) -> usize {
        self.private
    }

    closed spec fn spec_new(index: usize) -> Self {
        DefId { private: index }
    }

    proof fn lemma_new_index(index: usize) {
    }

    proof fn lemma_index_new(self) {
    }

    fn index(&self) -> usize {
        self.private
    }

    fn new(index: usize) -> Self {
        DefId { private: index }
    }
}

/// Names a basic block of a body.
#[derive(Copy, Clone, PartialEq, Eq, Hash, PartialOrd, Ord, Debug, Structural)]
pub struct BasicBlock {
    private: usize,
}

impl Idx for BasicBlock {
    closed spec fn spec_index(&self) -> usize {
        self.private
    }

    closed spec fn spec_new(index: usize) -> Self {
        BasicBlock { private: index }
    }

    proof fn lemma_new_index(index: usize) {
    }

    proof fn lemma_index_new(self) {
    }

    fn index(&self) -> usize {
        self.private
    }

    fn new(index: usize) -> Self {
        BasicBlock { private: index }
    }
}

/// A step along the way from a local to a storage location.
#[derive(Clone, PartialEq, Eq, Debug)]
pub enum Projection {
    Deref,
}

/// A storage location: the one reached from `root` by applying
/// `projections` in order.
#[derive(Clone, PartialEq, Eq, Debug)]
pub struct Lvalue {
    pub root: Local,
    pub projections: Vec<Projection>,
}

/// A literal value.
#[derive(Clone, PartialEq, Eq, Debug)]
pub enum Constant {
    Scalar(u64),
    Global(DefId),
}

/// A value as an instruction or a terminator reads it.
#[derive(Clone, PartialEq, Eq, Debug)]
pub enum Operand {
    Copy(Lvalue),
    Move(Lvalue),
    Constant(Box<Constant>),
}

/// How the value that an assignment stores is computed.
#[derive(Clone, PartialEq, Eq, Debug)]
pub enum Rvalue {
    Operand(Operand),
    AddressOf(Lvalue),
}

/// One step of straight-line code.
#[derive(Clone, PartialEq, Eq, Debug)]
pub enum Instruction {
    Assign(Box<(Lvalue, Rvalue)>),
    Nop,
}

/// The transfer of control that ends a basic block. A `Switch` has the
/// listed cases and no other branch.
#[derive(Clone, PartialEq, Eq, Debug)]
pub enum Terminator {
    Return,
    Unreachable,
    Goto(BasicBlock),
    Call { target: Operand, args: Vec<Operand>, rvp: Option<Lvalue>, goto: BasicBlock },
    Switch { source: Operand, cases: Vec<(u64, BasicBlock)> },
}

/// What a basic block holds: its instructions in order and, once the block
/// is finished, its terminator.
pub ghost struct BlockView {
    pub instructions: Seq<Instruction>,
    pub terminator: Option<Terminator>,
}

/// A basic block: straight-line instructions followed by at most one
/// terminator. A block without one is not finished yet.
#[derive(Clone, PartialEq, Eq, Debug)]
pub struct BasicBlockData {
    pub instructions: Vec<Instruction>,
    pub terminator: Option<Terminator>,
}

impl View for BasicBlockData {
    type V = BlockView;

    open spec fn view(&self) -> BlockView {
        BlockView { instructions: self.instructions@, terminator: self.terminator }
    }
}

/// What a body holds: its blocks in index order and the number of its local
/// slots. Slot 0 is the return value place, the slots after it are the
/// arguments in order, and any further slot is a temporary.
pub ghost struct BodyView {
    pub blocks: Seq<BlockView>,
    pub locals: nat,
}

impl BodyView {
    /// Whether `basic_block` names a block of this body.
    pub open spec fn has_block(self, basic_block: BasicBlock) -> bool {
        basic_block.spec_index() < self.blocks.len()
    }

    /// The block that `basic_block` names.
    pub open spec fn block(self, basic_block: BasicBlock) -> BlockView
        recommends
            self.has_block(basic_block),
    {
        self.blocks[basic_block.spec_index() as int]
    }

    /// This body with one more local slot.
    pub open spec fn with_local(self) -> BodyView {
        BodyView { blocks: self.blocks, locals: self.locals + 1 }
    }

    /// This body with one more block, empty and without a terminator.
    pub open spec fn with_block(self) -> BodyView {
        BodyView {
            blocks: self.blocks.push(
                BlockView { instructions: Seq::<Instruction>::empty(), terminator: None },
            ),
            locals: self.locals,
        }
    }

    /// This body with `instruction` behind the instructions of `basic_block`.
    pub open spec fn with_instruction(
        self,
        basic_block: BasicBlock,
        instruction: Instruction,
    ) -> BodyView
        recommends
            self.has_block(basic_block),
    {
        BodyView {
            blocks: self.blocks.update(
                basic_block.spec_index() as int,
                BlockView {
                    instructions: self.block(basic_block).instructions.push(instruction),
                    terminator: self.block(basic_block).terminator,
                },
            ),
            locals: self.locals,
        }
    }

    /// This body with the instructions of `instructions`, in order, behind
    /// those of `basic_block`.
    pub open spec fn with_instructions(
        self,
        basic_block: BasicBlock,
        instructions: Seq<Instruction>,
    ) -> BodyView
        recommends
            self.has_block(basic_block),
        decreases instructions.len(),
    {
        if instructions.len() == 0 {
            self
        } else {
            self.with_instructions(basic_block, instructions.drop_last()).with_instruction(
                basic_block,
                instructions.last(),
            )
        }
    }

    /// This body with `terminator` as the terminator of `basic_block`.
    pub open spec fn with_terminator(
        self,
        basic_block: BasicBlock,
        terminator: Terminator,
    ) -> BodyView
        recommends
            self.has_block(basic_block),
    {
        BodyView {
            blocks: self.blocks.update(
                basic_block.spec_index() as int,
                BlockView {
                    instructions: self.block(basic_block).instructions,
                    terminator: Some(terminator),
                },
            ),
            locals: self.locals,
        }
    }

    /// Appending a run of instructions to a block puts the run behind the
    /// block's instructions and leaves everything else as it was.
    pub proof fn lemma_with_instructions(
        self,
        basic_block: BasicBlock,
        instructions: Seq<Instruction>,
    )
        requires
            self.has_block(basic_block),
        ensures
            self.with_instructions(basic_block, instructions) == (BodyView {
                blocks: self.blocks.update(
                    basic_block.spec_index() as int,
                    BlockView {
                        instructions: self.block(basic_block).instructions + instructions,
                        terminator: self.block(basic_block).terminator,
                    },
                ),
                locals: self.locals,
            }),
        decreases instructions.len(),
    {
        let at = basic_block.spec_index() as int;
        if instructions.len() == 0 {
            assert(self.block(basic_block).instructions + instructions
                =~= self.block(basic_block).instructions);
            assert(self.blocks.update(at, self.blocks[at]) =~= self.blocks);
        } else {
            self.lemma_with_instructions(basic_block, instructions.drop_last());
            let before = self.with_instructions(basic_block, instructions.drop_last());
            assert((self.block(basic_block).instructions + instructions.drop_last()).push(
                instructions.last(),
            ) =~= self.block(basic_block).instructions + instructions);
            assert(before.with_instruction(basic_block, instructions.last()).blocks
                =~= self.blocks.update(
                at,
                BlockView {
                    instructions: self.block(basic_block).instructions + instructions,
                    terminator: self.block(basic_block).terminator,
                },
            ));
        }
    }

    /// A block that is added empty, then given instructions one by one and
    /// then its terminator, holds exactly those instructions in that order
    /// and that terminator. The blocks that were there and the local slots
    /// are as before.
    pub proof fn lemma_block_holds_what_it_was_given(
        self,
        basic_block: BasicBlock,
        instructions: Seq<Instruction>,
        terminator: Terminator,
    )
        requires
            basic_block.spec_index() == self.blocks.len(),
        ensures
            ({
                let built = self.with_block().with_instructions(
                    basic_block,
                    instructions,
                ).with_terminator(basic_block, terminator);
                &&& built.has_block(basic_block)
                &&& built.block(basic_block) == (BlockView {
                    instructions,
                    terminator: Some(terminator),
                })
                &&& built.blocks.len() == self.blocks.len() + 1
                &&& built.blocks.take(self.blocks.len() as int) == self.blocks
                &&& built.locals == self.locals
            }),
    {
        let fresh = self.with_block();
        fresh.lemma_with_instructions(basic_block, instructions);
        let built = fresh.with_instructions(basic_block, instructions).with_terminator(
            basic_block,
            terminator,
        );
        assert(Seq::<Instruction>::empty() + instructions =~= instructions);
        assert(built.blocks.take(self.blocks.len() as int) =~= self.blocks);
    }

    /// A block that has its terminator keeps having one, whatever is added
    /// to the body: a local, a block, an instruction or a terminator.
    pub proof fn lemma_terminated_stays(
        self,
        finished: BasicBlock,
        basic_block: BasicBlock,
        instruction: Instruction,
        terminator: Terminator,
    )
        requires
            self.has_block(finished),
            self.has_block(basic_block),
            self.block(finished).terminator.is_some(),
        ensures
            self.with_local().block(finished).terminator.is_some(),
            self.with_block().block(finished).terminator.is_some(),
            self.with_instruction(basic_block, instruction).block(finished).terminator.is_some(),
            self.with_terminator(basic_block, terminator).block(finished).terminator.is_some(),
    {
    }

    /// Whether every block has its terminator.
    pub open spec fn is_terminated(self) -> bool {
        forall|i: int| 0 <= i < self.blocks.len() ==> (#[trigger] self.blocks[i]).terminator.is_some()
    }

    /// A block just added makes a body unterminated, and ending the one
    /// block that may lack a terminator makes it terminated.
    pub proof fn lemma_terminated(self, basic_block: BasicBlock, terminator: Terminator)
        requires
            self.has_block(basic_block),
            forall|i: int|
                0 <= i < self.blocks.len() && i != basic_block.spec_index() ==> (
                #[trigger] self.blocks[i]).terminator.is_some(),
        ensures
            !self.with_block().is_terminated(),
            self.with_terminator(basic_block, terminator).is_terminated(),
    {
        let added = self.with_block();
        assert(added.blocks[self.blocks.len() as int].terminator.is_none());
    }
}

/// The body of a function as a control-flow graph.
#[derive(Clone, PartialEq, Eq, Debug)]
pub struct Body {
    blocks: IdxVec<BasicBlock, BasicBlockData>,
    locals: IdxVec<Local, ()>,
}

impl View for Body {
    type V = BodyView;

    closed spec fn view(&self) -> BodyView {
        BodyView {
            blocks: Seq::new(self.blocks@.len(), |i: int| self.blocks@[i]@),
            locals: self.locals@.len(),
        }
    }
}

impl Body {
    /// A body without blocks and without local slots.
    pub(crate) fn empty() -> (body: Body)
        ensures
            body@.blocks =~= Seq::<BlockView>::empty(),
            body@.locals == 0,
    {
        Body { blocks: IdxVec::new(), locals: IdxVec::new() }
    }

    /// Adds a local slot behind the others.
    pub(crate) fn push_local(&mut self) -> (local: Local)
        ensures
            local == Local::spec_new(old(self)@.locals as usize),
            local.spec_index() == old(self)@.locals,
            final(self)@ == old(self)@.with_local(),
    {
        self.locals.push(())
    }

    /// Adds `block` behind the other blocks.
    pub(crate) fn push_block(&mut self, block: BasicBlockData) -> (basic_block: BasicBlock)
        ensures
            basic_block == BasicBlock::spec_new(old(self)@.blocks.len() as usize),
            basic_block.spec_index() == old(self)@.blocks.len(),
            final(self)@ == (BodyView {
                blocks: old(self)@.blocks.push(block@),
                locals: old(self)@.locals,
            }),
    {
        let basic_block = self.blocks.push(block);
        assert(self@.blocks =~= old(self)@.blocks.push(block@));
        basic_block
    }

    /// The block that `basic_block` names, open to change.
    pub(crate) fn block_mut(&mut self, basic_block: BasicBlock) -> (block: &mut BasicBlockData)
        requires
            basic_block.spec_index() < old(self)@.blocks.len(),
        ensures
            block@ == old(self)@.block(basic_block),
            final(self)@.locals == old(self)@.locals,
            final(self)@.blocks =~= old(self)@.blocks.update(
                basic_block.spec_index() as int,
                final(block)@,
            ),
    {
        self.blocks.index_mut(basic_block)
    }

    /// The blocks, each under its index.
    pub fn blocks(&self) -> (blocks: &IdxVec<BasicBlock, BasicBlockData>)
        ensures
            blocks@.len() == self@.blocks.len(),
            forall|i: int| 0 <= i < blocks@.len() ==> (#[trigger] blocks@[i])@ == self@.blocks[i],
    {
        &self.blocks
    }

    /// The local slots, each under its index.
    pub fn locals(&self) -> (locals: &IdxVec<Local, ()>)
        ensures
            locals@.len() == self@.locals,
    {
        &self.locals
    }
}

} // verus!
