//! The tree-walking interpreter.
//!
//! The clock is read where a program calls `clock()`, so what an evaluation
//! gives depends on the time. Each contract therefore speaks of every
//! sequence of readings that begins with the interpreter's log, the
//! readings taken so far: over each of them the outcome is the meaning of
//! the program.

use crate::ast::Expr;
use crate::ast::FunctionDecl;
use crate::ast::LoopType;
use crate::ast::Stmt;
use crate::class::callable_arity;
use crate::environment::find_name;
use crate::environment::view_result;
use crate::number::Number;
use crate::operators::binary_op;
use crate::operators::combine;
use crate::operators::is_truthy;
use crate::operators::unary_op;
use crate::operators::wrap;
use crate::place::take_items;
use crate::place::view_place;
use crate::place::Place;
use crate::render::text_of;
use crate::semantics::call_builtin;
use crate::semantics::call_function;
use crate::semantics::call_result;
use crate::semantics::call_value;
use crate::semantics::class_defined;
use crate::semantics::class_methods;
use crate::semantics::eval;
use crate::semantics::eval_assign;
use crate::semantics::eval_binary;
use crate::semantics::eval_call;
use crate::semantics::eval_field_set;
use crate::semantics::eval_index;
use crate::semantics::eval_index_set;
use crate::semantics::eval_list;
use crate::semantics::eval_logical;
use crate::semantics::eval_place;
use crate::semantics::eval_super;
use crate::semantics::eval_ternary;
use crate::semantics::eval_unary;
use crate::semantics::exec;
use crate::semantics::exec_block;
use crate::semantics::exec_class;
use crate::semantics::exec_while;
use crate::semantics::exhausted;
use crate::semantics::flatten;
use crate::semantics::flatten_all;
use crate::semantics::instantiate;
use crate::semantics::literal_value;
use crate::semantics::loop_body;
use crate::semantics::not_callable;
use crate::semantics::params_defined;
use crate::semantics::entered;
use crate::semantics::post_steps;
use crate::semantics::refused_field;
use crate::semantics::refused_index;
use crate::semantics::reprojected;
use crate::semantics::resolve;
use crate::semantics::with_env;
use crate::semantics::write_back_of;
use crate::semantics::WriteBack;
use crate::semantics::run_body;
use crate::semantics::run_program;
use crate::semantics::call_env;
use crate::environment::env_lookup;
use crate::semantics::slot_assigned;
use crate::semantics::Called;
use crate::semantics::Resolved;
use crate::semantics::State;
use crate::semantics::Step;
use crate::semantics::Values;
use crate::text::arity_text;
use crate::token::fault;
use crate::token::view_fault;
use crate::token::Fault;
use crate::token::RuntimeError;
use crate::token::Token;
use crate::token::TokenType;
use crate::value::copy_bindings;
use crate::value::copy_slot;
use crate::value::share;
use crate::value::view_items;
use crate::value::view_slot;
use crate::value::Builtin;
use crate::value::Callable;
use crate::value::Environment;
use crate::value::FunctionType;
use crate::value::Literal;
use crate::value::LoxClass;
use crate::value::LoxFunction;
use crate::value::LoxInstance;
use crate::value::Signal;
use crate::value::Value;
use std::rc::Rc;
use std::time::Duration;
use std::time::Instant;
use vstd::prelude::*;

verus! {

/// `std::time::Instant`: a moment, carried and never looked into.
#[verifier::external_type_specification]
#[verifier::external_body]
pub struct ExInstant(Instant);

/// `Instant::now`: the present moment. Nothing is claimed of it.
#[verifier::external_body]
fn now() -> Instant {
    Instant::now()
}

/// `Instant::elapsed`: the time since `start`. Nothing is claimed of it.
#[verifier::external_body]
fn elapsed(start: &Instant) -> Duration {
    start.elapsed()
}

/// `Duration::as_micros`: the whole microseconds of a duration. Nothing is
/// claimed of it.
#[verifier::external_body]
fn micros(d: &Duration) -> u128 {
    d.as_micros()
}

/// The interpreter: the current environment, the moment it was started, the
/// lines printed and not yet taken, the depth allowed to an evaluation, and,
/// for contracts only, what the clock has read so far.
pub struct Interpreter {
    pub environment: Environment,
    pub time: Instant,
    pub output: Vec<String>,
    pub depth: u64,
    pub log: Ghost<Seq<Number>>,
}

/// The lines of the output.
pub open spec fn view_lines(v: Vec<String>) -> Seq<Seq<char>> {
    Seq::new(v@.len(), |i: int| v@[i]@)
}

/// Whether the readings `longer` begin with the readings `shorter`.
pub open spec fn extends(longer: Seq<Number>, shorter: Seq<Number>) -> bool {
    &&& shorter.len() <= longer.len()
    &&& forall|i: int|
        #![trigger longer[i]]
        #![trigger shorter[i]]
        0 <= i < shorter.len() ==> longer[i] == shorter[i]
}

/// The state of the interpreter where the clock reads `readings`, call after
/// call: the readings it has taken so far are as many as its log holds.
pub open spec fn state_of(i: Interpreter, readings: Seq<Number>) -> State {
    State { env: i.environment@, output: view_lines(i.output), readings, reads: i.log@.len() }
}

/// The interpreter's state with the result of an evaluation.
pub open spec fn step_of(i: Interpreter, readings: Seq<Number>, r: RuntimeError<Option<Literal>>) -> Step {
    Step { state: state_of(i, readings), result: view_result(r) }
}

/// The interpreter's state with the place found.
pub open spec fn resolved_of(i: Interpreter, readings: Seq<Number>, r: RuntimeError<Place>) -> Resolved {
    Resolved {
        state: state_of(i, readings),
        result: match r {
            Ok(p) => Ok(view_place(p)),
            Err(e) => Err(view_fault(e)),
        },
    }
}

/// The interpreter's state with the values of a list.
pub open spec fn values_of(i: Interpreter, readings: Seq<Number>, r: RuntimeError<Vec<Option<Literal>>>) -> Values {
    Values {
        state: state_of(i, readings),
        result: match r {
            Ok(v) => Ok(view_items(v)),
            Err(e) => Err(view_fault(e)),
        },
    }
}

/// The interpreter's state with the outcome of a call.
pub open spec fn called_of(
    i: Interpreter,
    readings: Seq<Number>,
    r: (RuntimeError<Option<Literal>>, Option<Option<Literal>>),
) -> Called {
    Called {
        state: state_of(i, readings),
        result: view_result(r.0),
        this_after: view_after(r.1),
    }
}

/// The state after a call with what the call gave.
pub open spec fn outcome(c: Called) -> Step {
    Step { state: c.state, result: c.result }
}

/// What `this` was bound to at the end of a call, in contracts.
pub open spec fn view_after(t: Option<Option<Literal>>) -> Option<Option<Value>> {
    match t {
        Some(v) => Some(view_slot(v)),
        None => None,
    }
}

/// Whether the parts of the interpreter that no evaluation changes are the
/// same, the depth and the moment of the start, and the readings of the
/// clock have only grown.
pub open spec fn framed(before: Interpreter, after: Interpreter) -> bool {
    before.depth == after.depth && before.time == after.time && extends(after.log@, before.log@)
}

/// A count of microseconds as a number of seconds. A count that the machine
/// cannot hold as a size counts as the greatest size.
pub open spec fn seconds(micros: u128) -> Number {
    let whole = if micros > usize::MAX {
        usize::MAX
    } else {
        micros as usize
    };
    Number::of_count(whole).over(Number::of_count(1000000))
}

/// The statements that the references point to.
pub open spec fn pointed(v: Seq<&Stmt>) -> Seq<Stmt> {
    Seq::new(v.len(), |i: int| *v[i])
}

/// The error of an evaluation that ran out of depth.
fn out_of_depth() -> (e: (Token, String))
    ensures
        view_fault(e) == exhausted(),
{
    (Token::new(TokenType::Eof, "", 0), String::from_str("Evaluation depth exhausted."))
}

/// What a call gives, from what its body gave.
fn finish_call(is_initializer: bool, body: RuntimeError<Option<Literal>>, this_after: &Option<Option<Literal>>) -> (r:
    RuntimeError<Option<Literal>>)
    ensures
        view_result(r) == call_result(is_initializer, view_result(body), view_after(*this_after)),
{
    match body {
        Err(e) => Err(e),
        Ok(v) => if is_initializer {
            match this_after {
                Some(t) => Ok(copy_slot(t)),
                None => Ok(None),
            }
        } else {
            proof {
                reveal_with_fuel(view_slot, 3);
            }
            match v {
                Some(Literal::Return(b)) => Ok(*b),
                _ => Ok(None),
            }
        },
    }
}

impl Interpreter {
    /// An interpreter whose environment holds the three host functions, with
    /// the greatest depth.
    pub fn new() -> (r: Interpreter)
        ensures
            r.environment@ == initial_env(),
            view_lines(r.output) == Seq::<Seq<char>>::empty(),
            r.log@ == Seq::<Number>::empty(),
            r.depth == u64::MAX,
    {
        let mut environment = Environment::new();
        environment.define(
            String::from_str("clock"),
            Some(Literal::Function(Callable::Native(Builtin::Clock))),
        );
        environment.define(String::from_str("len"), Some(Literal::Function(Callable::Native(Builtin::Len))));
        environment.define(
            String::from_str("debug"),
            Some(Literal::Function(Callable::Native(Builtin::Debug))),
        );
        proof {
            reveal_with_fuel(view_slot, 4);
        }
        let r = Interpreter {
            environment,
            time: now(),
            output: Vec::new(),
            depth: u64::MAX,
            log: Ghost(Seq::empty()),
        };
        assert(view_lines(r.output) =~= Seq::<Seq<char>>::empty());
        r
    }

    /// Appends the statements of a loop's body to `collection`: those of a
    /// block, with the blocks among them opened in turn; any other statement
    /// alone.
    pub fn collect_from_block<'a>(block: &'a Stmt, collection: &mut Vec<&'a Stmt>)
        ensures
            pointed(final(collection)@) == pointed(old(collection)@) + flatten(*block),
        decreases block,
    {
        match block {
            Stmt::Block { statements } => {
                collect_all(statements, collection);
            },
            _ => {
                collection.push(block);
                assert(pointed(collection@) =~= pointed(old(collection)@) + flatten(*block));
            },
        }
    }

    /// Takes `micros` microseconds as what the clock read just now: the
    /// reading, in seconds, is the next of the interpreter's readings.
    pub fn record(&mut self, micros: u128) -> (r: Number)
        ensures
            r == seconds(micros),
            final(self).log@ == old(self).log@.push(seconds(micros)),
            final(self).environment@ == old(self).environment@,
            view_lines(final(self).output) == view_lines(old(self).output),
            final(self).depth == old(self).depth,
            final(self).time == old(self).time,
    {
        let whole: usize = if micros > usize::MAX as u128 {
            usize::MAX
        } else {
            micros as usize
        };
        let r = Number::from_count(whole).div(Number::from_count(1000000));
        proof {
            self.log@ = self.log@.push(r);
        }
        r
    }

    /// Runs a program; the first error ends the run. Whatever the clock
    /// read where the program asked, the outcome is the meaning of the
    /// program over those readings.
    pub fn interpret(&mut self, statements: Vec<Stmt>) -> (r: RuntimeError<Option<Literal>>)
        ensures
            forall|o: Seq<Number>|
                extends(o, final(self).log@) ==> step_of(*final(self), o, r) == run_program(
                    statements@,
                    0,
                    #[trigger] state_of(*old(self), o),
                    old(self).depth as nat,
                ),
            framed(*old(self), *final(self)),
    {
        let mut i: usize = 0;
        while i < statements.len()
            invariant
                i <= statements.len(),
                framed(*old(self), *self),
                forall|o: Seq<Number>|
                    extends(o, self.log@) ==> run_program(
                        statements@,
                        0,
                        #[trigger] state_of(*old(self), o),
                        self.depth as nat,
                    ) == run_program(statements@, i as int, state_of(*self, o), self.depth as nat),
            decreases statements.len() - i,
        {
            match self.execute(&statements[i]) {
                Err(e) => {
                    return Err(e);
                },
                Ok(_) => {},
            }
            i += 1;
        }
        Ok(None)
    }

    /// Executes a statement within the interpreter's depth.
    pub fn execute(&mut self, stmt: &Stmt) -> (r: RuntimeError<Option<Literal>>)
        ensures
            forall|o: Seq<Number>|
                extends(o, final(self).log@) ==> step_of(*final(self), o, r) == exec(
                    *stmt,
                    #[trigger] state_of(*old(self), o),
                    old(self).depth as nat,
                ),
            framed(*old(self), *final(self)),
    {
        let fuel: u64 = self.depth;
        self.exec_with(stmt, fuel)
    }

    /// Evaluates an expression within the interpreter's depth.
    pub fn evaluate(&mut self, expr: &Expr) -> (r: RuntimeError<Option<Literal>>)
        ensures
            forall|o: Seq<Number>|
                extends(o, final(self).log@) ==> step_of(*final(self), o, r) == eval(*expr, #[trigger] state_of(*old(self), o), old(self).depth as nat),
            framed(*old(self), *final(self)),
    {
        let fuel: u64 = self.depth;
        self.eval_with(expr, fuel)
    }

    /// `==` on two values.
    pub fn is_equal(&self, a: Option<Literal>, b: Option<Literal>) -> (r: Option<Literal>)
        ensures
            view_slot(r) == crate::operators::equal_values(view_slot(a), view_slot(b)),
    {
        crate::operators::is_equal(&a, &b)
    }

    /// `!=` on two values.
    pub fn is_not_equal(&self, a: Option<Literal>, b: Option<Literal>) -> (r: Option<Literal>)
        ensures
            view_slot(r) == crate::operators::unequal_values(view_slot(a), view_slot(b)),
    {
        crate::operators::is_not_equal(&a, &b)
    }

    /// The truthiness of a value, as a boolean value.
    pub fn is_truthy(&self, object: Option<Literal>) -> (r: Option<Literal>)
        ensures
            view_slot(r) == Some(Value::Boolean(crate::operators::truthy(view_slot(object)))),
    {
        Some(Literal::Boolean(is_truthy(&object)))
    }

    /// `!` on a value.
    pub fn is_truthy_flip(&self, object: Option<Literal>) -> (r: Option<Literal>)
        ensures
            view_slot(r) == crate::operators::flipped(view_slot(object)),
    {
        crate::operators::is_truthy_flip(object)
    }

    /// Executes the statements of a block in the current environment, within
    /// the interpreter's depth. The environment handed in is not consulted:
    /// whoever opens a scope for the block does so on the interpreter.
    pub fn execute_block(&mut self, statements: &Vec<Stmt>, _environment: Environment) -> (r: RuntimeError<
        Option<Literal>,
    >)
        ensures
            forall|o: Seq<Number>|
                extends(o, final(self).log@) ==> step_of(*final(self), o, r) == exec_block(statements@, 0, None, #[trigger] state_of(*old(self), o), old(self).depth as nat),
            framed(*old(self), *final(self)),
    {
        let fuel: u64 = self.depth;
        self.exec_block_with(statements, fuel)
    }

    /// Takes the lines printed since the last call.
    pub fn take_output(&mut self) -> (r: Vec<String>)
        ensures
            view_lines(r) == view_lines(old(self).output),
            view_lines(final(self).output) == Seq::<Seq<char>>::empty(),
            final(self).environment@ == old(self).environment@,
            final(self).log@ == old(self).log@,
            framed(*old(self), *final(self)),
    {
        let mut lines: Vec<String> = Vec::new();
        std::mem::swap(&mut lines, &mut self.output);
        assert(view_lines(self.output) =~= Seq::<Seq<char>>::empty());
        lines
    }

    fn emit(&mut self, line: String)
        ensures
            final(self).environment@ == old(self).environment@,
            view_lines(final(self).output) == view_lines(old(self).output).push(line@),
            final(self).log@ == old(self).log@,
            framed(*old(self), *final(self)),
    {
        self.output.push(line);
        assert(view_lines(self.output) =~= view_lines(old(self).output).push(line@));
    }

    fn visit_literal_expr(&self, value: &Option<Literal>) -> (r: Option<Literal>)
        ensures
            view_slot(r) == literal_value(*value, self.environment@),
    {
        proof {
            reveal_with_fuel(view_slot, 4);
        }
        match value {
            Some(Literal::Function(Callable::User(f))) => {
                if f.f_type == FunctionType::Anon {
                    Some(
                        Literal::Function(
                            Callable::User(
                                LoxFunction {
                                    declaration: share(&f.declaration),
                                    closure: Environment::new_with_enclosing(self.environment.copy()),
                                    f_type: FunctionType::Anon,
                                    is_initializer: false,
                                },
                            ),
                        ),
                    )
                } else {
                    copy_slot(value)
                }
            },
            _ => copy_slot(value),
        }
    }

    /// Evaluates an expression within the depth `fuel`.
    pub fn eval_with(&mut self, expr: &Expr, fuel: u64) -> (r: RuntimeError<Option<Literal>>)
        ensures
            forall|o: Seq<Number>|
                extends(o, final(self).log@) ==> step_of(*final(self), o, r) == eval(*expr, #[trigger] state_of(*old(self), o), fuel as nat),
            framed(*old(self), *final(self)),
        decreases fuel, 0nat,
    {
        if fuel == 0 {
            return Err(out_of_depth());
        }
        let f: u64 = fuel - 1;
        match expr {
            Expr::Binary { left, operator, right } => self.visit_binary_expr(left, operator, right, f),
            Expr::Ternary { condition, operator_a, left, right } => self.visit_ternary_expr(
                condition,
                operator_a,
                left,
                right,
                f,
            ),
            Expr::Grouping { expression } => self.eval_with(expression, f),
            Expr::Unary { operator, right } => self.visit_unary_expr(operator, right, f),
            Expr::Literal { value } => Ok(self.visit_literal_expr(value)),
            Expr::Super { keyword, method } => self.visit_super_expr(keyword, method),
            Expr::Assign { name, assign_type, value } => self.visit_assign_expr(name, *assign_type, value, f),
            Expr::Logical { left, operator, right } => self.visit_logical_expr(left, operator, right, f),
            Expr::Call { callee, paren, arguments } => self.visit_call_expr(callee, paren, arguments, f),
            Expr::FieldSet { object, name, assign_type, value } => self.visit_set_expr(
                object,
                name,
                *assign_type,
                value,
                f,
            ),
            Expr::Index { collection } => self.visit_index_expr(collection, f),
            Expr::IndexSet { object, name, index, assign_type, value } => self.visit_index_set_expr(
                object,
                name,
                index,
                *assign_type,
                value,
                f,
            ),
            _ => self.visit_place_expr(expr, f),
        }
    }

    /// Finds the place that an expression names, within the depth `fuel`.
    pub fn resolve<'a>(&mut self, expr: &'a Expr, fuel: u64) -> (r: RuntimeError<Place<'a>>)
        ensures
            forall|o: Seq<Number>|
                extends(o, final(self).log@) ==> resolved_of(*final(self), o, r) == resolve(*expr, #[trigger] state_of(*old(self), o), fuel as nat),
            framed(*old(self), *final(self)),
        decreases fuel, 0nat,
    {
        if fuel == 0 {
            return Err(out_of_depth());
        }
        let f: u64 = fuel - 1;
        match expr {
            Expr::Var { name } => Ok(Place::Var(name)),
            Expr::This { keyword } => Ok(Place::This(keyword)),
            Expr::Get { object, name } => match self.resolve(object, f) {
                Err(e) => Err(e),
                Ok(p) => Ok(Place::Field(Box::new(p), name)),
            },
            Expr::IndexGet { object, keyword, index } => match self.resolve(object, f) {
                Err(e) => Err(e),
                Ok(p) => match refuse_index(&p, keyword, &self.environment) {
                    Some(e) => Err(e),
                    None => match self.eval_with(index, f) {
                        Err(e) => Err(e),
                        Ok(Some(Literal::Number(n))) => Ok(Place::Index(Box::new(p), keyword, n)),
                        Ok(_) => Err(fault(keyword, "Index must be a number type.")),
                    },
                },
            },
            _ => match self.eval_with(expr, f) {
                Err(e) => Err(e),
                Ok(v) => Ok(Place::Temp(v)),
            },
        }
    }

    fn visit_place_expr(&mut self, expr: &Expr, fuel: u64) -> (r: RuntimeError<Option<Literal>>)
        ensures
            forall|o: Seq<Number>|
                extends(o, final(self).log@) ==> step_of(*final(self), o, r) == eval_place(*expr, #[trigger] state_of(*old(self), o), fuel as nat),
            framed(*old(self), *final(self)),
        decreases fuel, 1nat,
    {
        match self.resolve(expr, fuel) {
            Err(e) => Err(e),
            Ok(p) => p.read(&self.environment),
        }
    }

    fn visit_binary_expr(&mut self, left: &Expr, operator: &Token, right: &Expr, fuel: u64) -> (r: RuntimeError<
        Option<Literal>,
    >)
        ensures
            forall|o: Seq<Number>|
                extends(o, final(self).log@) ==> step_of(*final(self), o, r) == eval_binary(*left, operator@, *right, #[trigger] state_of(*old(self), o), fuel as nat),
            framed(*old(self), *final(self)),
        decreases fuel, 1nat,
    {
        let b = match self.eval_with(right, fuel) {
            Err(e) => {
                return Err(e);
            },
            Ok(b) => b,
        };
        let a = match self.eval_with(left, fuel) {
            Err(e) => {
                return Err(e);
            },
            Ok(a) => a,
        };
        match binary_op(operator.type_, a, b) {
            Ok(v) => Ok(v),
            Err(m) => Err((operator.copy(), m)),
        }
    }

    fn visit_ternary_expr(
        &mut self,
        condition: &Expr,
        operator: &Token,
        left: &Expr,
        right: &Expr,
        fuel: u64,
    ) -> (r: RuntimeError<Option<Literal>>)
        ensures
            forall|o: Seq<Number>|
                extends(o, final(self).log@) ==> step_of(*final(self), o, r) == eval_ternary(
                *condition,
                operator@,
                *left,
                *right,
                #[trigger] state_of(*old(self), o),
                fuel as nat,
            ),
            framed(*old(self), *final(self)),
        decreases fuel, 1nat,
    {
        let c = match self.eval_with(condition, fuel) {
            Err(e) => {
                return Err(e);
            },
            Ok(c) => c,
        };
        let rv = match self.eval_with(right, fuel) {
            Err(e) => {
                return Err(e);
            },
            Ok(v) => v,
        };
        let lv = match self.eval_with(left, fuel) {
            Err(e) => {
                return Err(e);
            },
            Ok(v) => v,
        };
        match c {
            Some(Literal::Boolean(b)) => if b {
                Ok(lv)
            } else {
                Ok(rv)
            },
            _ => Err(fault(operator, "Invalid condition for Ternary")),
        }
    }

    fn visit_unary_expr(&mut self, operator: &Token, right: &Expr, fuel: u64) -> (r: RuntimeError<Option<Literal>>)
        ensures
            forall|o: Seq<Number>|
                extends(o, final(self).log@) ==> step_of(*final(self), o, r) == eval_unary(operator@, *right, #[trigger] state_of(*old(self), o), fuel as nat),
            framed(*old(self), *final(self)),
        decreases fuel, 1nat,
    {
        if operator.type_ == TokenType::Incr || operator.type_ == TokenType::Decr {
            let p = match self.resolve(right, fuel) {
                Err(e) => {
                    return Err(e);
                },
                Ok(p) => p,
            };
            match p.read(&self.environment) {
                Err(e) => Err(e),
                Ok(Some(Literal::Number(x))) => {
                    let y = if operator.type_ == TokenType::Incr {
                        x.add(Number::unit())
                    } else {
                        x.sub(Number::unit())
                    };
                    match p.write(&mut self.environment, Some(Literal::Number(y))) {
                        Err(e) => Err(e),
                        Ok(()) => Ok(Some(Literal::Number(x))),
                    }
                },
                Ok(_) => Err(fault(operator, "Operand must be a Number.")),
            }
        } else {
            match self.eval_with(right, fuel) {
                Err(e) => Err(e),
                Ok(v) => match unary_op(operator.type_, v) {
                    Ok(v) => Ok(v),
                    Err(m) => Err((operator.copy(), m)),
                },
            }
        }
    }

    fn visit_super_expr(&mut self, keyword: &Token, method: &Token) -> (r: RuntimeError<Option<Literal>>)
        ensures
            forall|o: Seq<Number>|
                extends(o, final(self).log@) ==> step_of(*final(self), o, r) == eval_super(keyword@, method@, #[trigger] state_of(*old(self), o)),
            framed(*old(self), *final(self)),
    {
        let name = String::from_str("this");
        proof {
            reveal_with_fuel(view_slot, 5);
        }
        match self.environment.lookup(&name) {
            Some(Some(Literal::Instance(i))) => match &i.class.super_class {
                Some(sc) => match sc.find_method(&method.lexeme) {
                    Some(m) => {
                        let receiver = LoxInstance { class: (**sc).copy(), fields: copy_bindings(&i.fields) };
                        Ok(Some(Literal::Function(Callable::User(m.bind(&receiver)))))
                    },
                    None => Err(fault(keyword, "Could not find current this.")),
                },
                None => Err(fault(keyword, "Could not find current this.")),
            },
            _ => Err(fault(keyword, "Could not find current this.")),
        }
    }

    fn visit_assign_expr(&mut self, name: &Token, op: Option<TokenType>, value: &Expr, fuel: u64) -> (r: RuntimeError<
        Option<Literal>,
    >)
        ensures
            forall|o: Seq<Number>|
                extends(o, final(self).log@) ==> step_of(*final(self), o, r) == eval_assign(name@, op, *value, #[trigger] state_of(*old(self), o), fuel as nat),
            framed(*old(self), *final(self)),
        decreases fuel, 1nat,
    {
        let rhs = match self.eval_with(value, fuel) {
            Err(e) => {
                return Err(e);
            },
            Ok(v) => v,
        };
        let current = match self.environment.get(name) {
            Err(e) => {
                return Err(e);
            },
            Ok(v) => v,
        };
        let stored = match combine(op, current, rhs) {
            Err(m) => {
                return Err((name.copy(), m));
            },
            Ok(v) => v,
        };
        match self.environment.assign(name, copy_slot(&stored)) {
            Err(e) => Err(e),
            Ok(()) => Ok(stored),
        }
    }

    fn visit_logical_expr(&mut self, left: &Expr, operator: &Token, right: &Expr, fuel: u64) -> (r: RuntimeError<
        Option<Literal>,
    >)
        ensures
            forall|o: Seq<Number>|
                extends(o, final(self).log@) ==> step_of(*final(self), o, r) == eval_logical(*left, operator@, *right, #[trigger] state_of(*old(self), o), fuel as nat),
            framed(*old(self), *final(self)),
        decreases fuel, 1nat,
    {
        let v = match self.eval_with(left, fuel) {
            Err(e) => {
                return Err(e);
            },
            Ok(v) => v,
        };
        if (operator.type_ == TokenType::Or) == is_truthy(&v) {
            Ok(v)
        } else {
            self.eval_with(right, fuel)
        }
    }

    fn eval_list(&mut self, exprs: &Vec<Expr>, fuel: u64) -> (r: RuntimeError<Vec<Option<Literal>>>)
        ensures
            forall|o: Seq<Number>|
                extends(o, final(self).log@) ==> values_of(*final(self), o, r) == eval_list(exprs@, 0, Seq::empty(), #[trigger] state_of(*old(self), o), fuel as nat),
            framed(*old(self), *final(self)),
        decreases fuel, 1 + exprs@.len(),
    {
        let mut out: Vec<Option<Literal>> = Vec::new();
        let mut i: usize = 0;
        assert(view_items(out) =~= Seq::empty());
        while i < exprs.len()
            invariant
                i <= exprs.len(),
                framed(*old(self), *self),
                forall|o: Seq<Number>|
                    extends(o, self.log@) ==> eval_list(exprs@, 0, Seq::empty(), #[trigger] state_of(*old(self), o), fuel as nat) == eval_list(
                    exprs@,
                    i as int,
                    view_items(out),
                    state_of(*self, o),
                    fuel as nat,
                ),
            decreases exprs.len() - i,
        {
            let ghost before = view_items(out);
            match self.eval_with(&exprs[i], fuel) {
                Err(e) => {
                    return Err(e);
                },
                Ok(v) => {
                    out.push(v);
                    assert(view_items(out) =~= before.push(view_slot(v)));
                },
            }
            i += 1;
        }
        Ok(out)
    }

    fn visit_index_expr(&mut self, collection: &Vec<Expr>, fuel: u64) -> (r: RuntimeError<Option<Literal>>)
        ensures
            forall|o: Seq<Number>|
                extends(o, final(self).log@) ==> step_of(*final(self), o, r) == eval_index(collection@, #[trigger] state_of(*old(self), o), fuel as nat),
            framed(*old(self), *final(self)),
        decreases fuel, 2 + collection@.len(),
    {
        match self.eval_list(collection, fuel) {
            Err(e) => Err(e),
            Ok(v) => Ok(Some(Literal::Collection(v))),
        }
    }

    fn visit_set_expr(
        &mut self,
        object: &Expr,
        name: &Token,
        op: Option<TokenType>,
        value: &Expr,
        fuel: u64,
    ) -> (r: RuntimeError<Option<Literal>>)
        ensures
            forall|o: Seq<Number>|
                extends(o, final(self).log@) ==> step_of(*final(self), o, r) == eval_field_set(*object, name@, op, *value, #[trigger] state_of(*old(self), o), fuel as nat),
            framed(*old(self), *final(self)),
        decreases fuel, 1nat,
    {
        let p = match self.resolve(object, fuel) {
            Err(e) => {
                return Err(e);
            },
            Ok(p) => p,
        };
        match refuse_field(&p, name, &self.environment) {
            Some(e) => {
                return Err(e);
            },
            None => {},
        }
        let rhs = match self.eval_with(value, fuel) {
            Err(e) => {
                return Err(e);
            },
            Ok(v) => v,
        };
        match p.read(&self.environment) {
            Err(e) => Err(e),
            Ok(Some(Literal::Instance(i))) => {
                let mut instance = i;
                let stored = match instance.get(name) {
                    Ok(current) => match combine(op, current, rhs) {
                        Err(m) => {
                            return Err((name.copy(), m));
                        },
                        Ok(v) => v,
                    },
                    Err(_) => rhs,
                };
                instance.set(&name.lexeme, copy_slot(&stored));
                match p.write(&mut self.environment, Some(Literal::Instance(instance))) {
                    Err(e) => Err(e),
                    Ok(()) => Ok(stored),
                }
            },
            Ok(_) => Err(fault(name, "Only instances have fields.")),
        }
    }

    fn visit_index_set_expr(
        &mut self,
        object: &Expr,
        name: &Token,
        index: &Expr,
        op: Option<TokenType>,
        value: &Expr,
        fuel: u64,
    ) -> (r: RuntimeError<Option<Literal>>)
        ensures
            forall|o: Seq<Number>|
                extends(o, final(self).log@) ==> step_of(*final(self), o, r) == eval_index_set(
                *object,
                name@,
                *index,
                op,
                *value,
                #[trigger] state_of(*old(self), o),
                fuel as nat,
            ),
            framed(*old(self), *final(self)),
        decreases fuel, 1nat,
    {
        let p = match self.resolve(object, fuel) {
            Err(e) => {
                return Err(e);
            },
            Ok(p) => p,
        };
        match refuse_index(&p, name, &self.environment) {
            Some(e) => {
                return Err(e);
            },
            None => {},
        }
        let n = match self.eval_with(index, fuel) {
            Err(e) => {
                return Err(e);
            },
            Ok(Some(Literal::Number(n))) => n,
            Ok(_) => {
                return Err(fault(name, "Index must be a number type."));
            },
        };
        let rhs = match self.eval_with(value, fuel) {
            Err(e) => {
                return Err(e);
            },
            Ok(v) => v,
        };
        assign_slot(&p, name, n, op, rhs, &mut self.environment)
    }

    fn call_function(
        &mut self,
        function: &LoxFunction,
        args: Vec<Option<Literal>>,
        in_new_scope: bool,
        fuel: u64,
    ) -> (r: (RuntimeError<Option<Literal>>, Option<Option<Literal>>))
        ensures
            forall|o: Seq<Number>|
                extends(o, final(self).log@) ==> called_of(*final(self), o, r) == call_function(
                function@,
                view_items(args),
                in_new_scope,
                #[trigger] state_of(*old(self), o),
                fuel as nat,
            ),
            framed(*old(self), *final(self)),
        decreases fuel, 0nat,
    {
        if fuel == 0 {
            return (Err(out_of_depth()), None);
        }
        let ghost before = *self;
        let saved = self.enter(function, args, in_new_scope);
        let ghost inside = *self;
        let body = self.exec_block_with(&function.declaration.body, fuel - 1);
        let ghost after = *self;
        let r = self.leave(saved, function.is_initializer, body);
        proof {
            assert forall|o: Seq<Number>| extends(o, self.log@) implies called_of(*self, o, r) == call_function(
                function@,
                view_items(args),
                in_new_scope,
                state_of(before, o),
                fuel as nat,
            ) by {
                let start = entered(state_of(before, o), function@, view_items(args), in_new_scope);
                assert(state_of(inside, o) == start);
                assert(step_of(after, o, body) == exec_block(
                    function@.declaration.body@,
                    0,
                    None,
                    start,
                    (fuel - 1) as nat,
                ));
                assert(state_of(*self, o) == with_env(state_of(after, o), state_of(before, o).env));
            }
        }
        r
    }

    /// Ends a call: reads what `this` is bound to and puts the caller's
    /// environment back.
    fn leave(&mut self, saved: Environment, is_initializer: bool, body: RuntimeError<Option<Literal>>) -> (r: (
        RuntimeError<Option<Literal>>,
        Option<Option<Literal>>,
    ))
        ensures
            final(self).environment@ == saved@,
            view_lines(final(self).output) == view_lines(old(self).output),
            final(self).log@ == old(self).log@,
            view_after(r.1) == env_lookup(old(self).environment@, "this"@),
            view_result(r.0) == call_result(is_initializer, view_result(body), view_after(r.1)),
            framed(*old(self), *final(self)),
    {
        let mut saved = saved;
        let name = String::from_str("this");
        let this_after = self.environment.lookup(&name);
        std::mem::swap(&mut saved, &mut self.environment);
        let result = finish_call(is_initializer, body, &this_after);
        (result, this_after)
    }

    /// Puts the environment of a call in place of the caller's, which is
    /// handed out.
    fn enter(&mut self, function: &LoxFunction, args: Vec<Option<Literal>>, in_new_scope: bool) -> (saved:
        Environment)
        ensures
            saved@ == old(self).environment@,
            final(self).environment@ == call_env(function@, view_items(args), in_new_scope),
            view_lines(final(self).output) == view_lines(old(self).output),
            final(self).log@ == old(self).log@,
            framed(*old(self), *final(self)),
    {
        let mut inner = function.closure.copy();
        if in_new_scope {
            inner.push_scope();
        }
        let ghost base = inner@;
        let params = &function.declaration.params;
        let mut rest = args;
        let mut i: usize = 0;
        while i < params.len() && i < rest.len()
            invariant
                i <= params.len(),
                i <= rest.len(),
                rest@.len() == args@.len(),
                forall|j: int| i <= j < rest@.len() ==> rest@[j] == args@[j],
                inner@ == params_defined(base, params@, view_items(args), i as int),
            decreases params.len() - i,
        {
            let mut a: Option<Literal> = None;
            std::mem::swap(&mut a, &mut rest[i]);
            inner.define(params[i].lexeme.clone(), a);
            i += 1;
        }
        std::mem::swap(&mut inner, &mut self.environment);
        inner
    }

    fn instantiate(&mut self, class: LoxClass, args: Vec<Option<Literal>>, fuel: u64) -> (r: (
        RuntimeError<Option<Literal>>,
        Option<Option<Literal>>,
    ))
        ensures
            forall|o: Seq<Number>|
                extends(o, final(self).log@) ==> called_of(*final(self), o, r) == instantiate(class@, view_items(args), #[trigger] state_of(*old(self), o), fuel as nat),
            framed(*old(self), *final(self)),
        decreases fuel, 1nat,
    {
        let found = match class.find_method(&class.name) {
            Some(init) => Some(init.copy()),
            None => None,
        };
        let instance = LoxInstance::new(class);
        match found {
            None => (Ok(Some(Literal::Instance(instance))), None),
            Some(init) => {
                let method = init.bind(&instance);
                let (result, this_after) = self.call_function(&method, args, true, fuel);
                match result {
                    Err(e) => (Err(e), None),
                    Ok(_) => match this_after {
                        Some(Some(v)) => (Ok(Some(v)), None),
                        _ => (Ok(Some(Literal::Instance(instance))), None),
                    },
                }
            },
        }
    }

    fn call_builtin(&mut self, b: Builtin, args: Vec<Option<Literal>>, paren: &Token) -> (r: (
        RuntimeError<Option<Literal>>,
        Option<Option<Literal>>,
    ))
        requires
            args@.len() == callable_arity(crate::value::CallableValue::Native(b)),
        ensures
            forall|o: Seq<Number>|
                extends(o, final(self).log@) ==> called_of(*final(self), o, r) == call_builtin(b, view_items(args), paren@, #[trigger] state_of(*old(self), o)),
            framed(*old(self), *final(self)),
    {
        proof {
            reveal_with_fuel(view_slot, 4);
        }
        match b {
            Builtin::Clock => {
                let d = elapsed(&self.time);
                let reading = self.record(micros(&d));
                (Ok(Some(Literal::Number(reading))), None)
            },
            Builtin::Len => {
                proof {
                    reveal_with_fuel(view_items, 4);
                }
                match &args[0] {
                    Some(Literal::Collection(c)) => (Ok(Some(Literal::Number(Number::from_count(c.len())))), None),
                    Some(Literal::String(t)) => (
                        Ok(Some(Literal::Number(Number::from_count(t.as_str().len())))),
                        None,
                    ),
                    _ => (Err(fault(paren, "Argument must be a List or a String.")), None),
                }
            },
            Builtin::Debug => {
                let line = text_of(&args[0], false);
                self.emit(line);
                (Ok(None), None)
            },
        }
    }

    fn call_value(
        &mut self,
        callee: Option<Literal>,
        args: Vec<Option<Literal>>,
        in_new_scope: bool,
        paren: &Token,
        source: &Expr,
        fuel: u64,
    ) -> (r: (RuntimeError<Option<Literal>>, Option<Option<Literal>>))
        ensures
            forall|o: Seq<Number>|
                extends(o, final(self).log@) ==> called_of(*final(self), o, r) == call_value(
                view_slot(callee),
                view_items(args),
                in_new_scope,
                paren@,
                not_callable(*source, paren@),
                #[trigger] state_of(*old(self), o),
                fuel as nat,
            ),
            framed(*old(self), *final(self)),
        decreases fuel, 2nat,
    {
        proof {
            reveal_with_fuel(view_slot, 4);
        }
        match callee {
            Some(Literal::Function(c)) => {
                let arity: usize = c.arity();
                if arity != args.len() {
                    (Err((paren.copy(), arity_text(arity, args.len()))), None)
                } else {
                    match c {
                        Callable::User(f) => self.call_function(&f, args, in_new_scope, fuel),
                        Callable::Native(b) => self.call_builtin(b, args, paren),
                    }
                }
            },
            Some(Literal::Class(c)) => {
                let arity: usize = c.arity();
                if arity != args.len() {
                    (Err((paren.copy(), arity_text(arity, args.len()))), None)
                } else {
                    self.instantiate(c, args, fuel)
                }
            },
            _ => match source {
                Expr::Var { name } => (Err(fault(name, "Expected function.")), None),
                _ => (Err(fault(paren, "Expected variable expression.")), None),
            },
        }
    }

    fn visit_call_expr(&mut self, callee: &Expr, paren: &Token, arguments: &Vec<Expr>, fuel: u64) -> (r: RuntimeError<
        Option<Literal>,
    >)
        ensures
            forall|o: Seq<Number>|
                extends(o, final(self).log@) ==> step_of(*final(self), o, r) == eval_call(*callee, paren@, arguments@, #[trigger] state_of(*old(self), o), fuel as nat),
            framed(*old(self), *final(self)),
        decreases fuel, 3 + arguments@.len(),
    {
        let p = match self.resolve(callee, fuel) {
            Err(e) => {
                return Err(e);
            },
            Ok(p) => p,
        };
        let function = match p.read(&self.environment) {
            Err(e) => {
                return Err(e);
            },
            Ok(v) => v,
        };
        let target = write_back(callee, &p, &self.environment);
        let values = match self.eval_list(arguments, fuel) {
            Err(e) => {
                return Err(e);
            },
            Ok(v) => v,
        };
        let fresh: bool = match callee {
            Expr::Get { .. } => false,
            Expr::Super { .. } => false,
            _ => true,
        };
        let (result, this_after) = self.call_value(function, values, fresh, paren, callee, fuel);
        match result {
            Err(e) => Err(e),
            Ok(v) => match reproject(target, &p, this_after, &mut self.environment) {
                Err(e) => Err(e),
                Ok(()) => Ok(v),
            },
        }
    }

    /// Executes a statement within the depth `fuel`.
    pub fn exec_with(&mut self, stmt: &Stmt, fuel: u64) -> (r: RuntimeError<Option<Literal>>)
        ensures
            forall|o: Seq<Number>|
                extends(o, final(self).log@) ==> step_of(*final(self), o, r) == exec(*stmt, #[trigger] state_of(*old(self), o), fuel as nat),
            framed(*old(self), *final(self)),
        decreases fuel, 0nat,
    {
        if fuel == 0 {
            return Err(out_of_depth());
        }
        let f: u64 = fuel - 1;
        match stmt {
            Stmt::Expression { expression } => match self.eval_with(expression, f) {
                Err(e) => Err(e),
                Ok(_) => Ok(None),
            },
            Stmt::Var { name, initializer } => match initializer {
                Some(init) => match self.eval_with(init, f) {
                    Err(e) => Err(e),
                    Ok(v) => {
                        self.environment.define(name.lexeme.clone(), v);
                        Ok(None)
                    },
                },
                None => {
                    self.environment.define(name.lexeme.clone(), None);
                    Ok(None)
                },
            },
            Stmt::Print { expression } => match self.eval_with(expression, f) {
                Err(e) => Err(e),
                Ok(v) => {
                    let line = text_of(&v, true);
                    self.emit(line);
                    Ok(None)
                },
            },
            Stmt::Block { statements } => {
                self.environment.push_scope();
                let ghost opened = *self;
                let r = self.exec_block_with(statements, f);
                let ghost inner = *self;
                self.environment.pop_scope();
                proof {
                    assert forall|o: Seq<Number>| extends(o, self.log@) implies step_of(*self, o, r) == exec(
                        *stmt,
                        state_of(*old(self), o),
                        fuel as nat,
                    ) by {
                        let start = with_env(state_of(*old(self), o), old(self).environment@.push(Seq::empty()));
                        assert(state_of(opened, o) == start);
                        assert(step_of(inner, o, r) == exec_block(statements@, 0, None, start, f as nat));
                    }
                }
                r
            },
            Stmt::Class { name, super_class, methods } => self.visit_class_stmt(name, super_class, methods, f),
            Stmt::If { condition, then_branch, else_branch } => match self.eval_with(condition, f) {
                Err(e) => Err(e),
                Ok(v) => if is_truthy(&v) {
                    self.exec_with(then_branch, f)
                } else {
                    match else_branch {
                        Some(b) => self.exec_with(b, f),
                        None => Ok(None),
                    }
                },
            },
            Stmt::While { condition, body, loop_type } => self.visit_while_stmt(condition, body, *loop_type, f),
            Stmt::Function { declaration } => {
                let function = LoxFunction {
                    declaration: share(declaration),
                    closure: self.environment.copy(),
                    f_type: FunctionType::Normal,
                    is_initializer: false,
                };
                proof {
                    reveal_with_fuel(view_slot, 4);
                }
                self.environment.define(
                    declaration.name.lexeme.clone(),
                    Some(Literal::Function(Callable::User(function))),
                );
                Ok(None)
            },
            Stmt::Return { keyword, value } => match value {
                Some(e) => match self.eval_with(e, f) {
                    Err(e) => Err(e),
                    Ok(v) => {
                        proof {
                            reveal_with_fuel(view_slot, 3);
                        }
                        Ok(Some(Literal::Return(Box::new(v))))
                    },
                },
                None => {
                    proof {
                        reveal_with_fuel(view_slot, 3);
                    }
                    Ok(Some(Literal::Return(Box::new(None))))
                },
            },
            Stmt::Break { keyword } => Ok(Some(Literal::Keyword(Signal::Break))),
            Stmt::Continue { keyword } => Ok(Some(Literal::Keyword(Signal::Continue))),
        }
    }

    /// Executes the statements of a block within the depth `fuel`.
    pub fn exec_block_with(&mut self, statements: &Vec<Stmt>, fuel: u64) -> (r: RuntimeError<Option<Literal>>)
        ensures
            forall|o: Seq<Number>|
                extends(o, final(self).log@) ==> step_of(*final(self), o, r) == exec_block(statements@, 0, None, #[trigger] state_of(*old(self), o), fuel as nat),
            framed(*old(self), *final(self)),
        decreases fuel, 1 + statements@.len(),
    {
        let mut pending: Option<Literal> = None;
        let mut i: usize = 0;
        while i < statements.len()
            invariant
                i <= statements.len(),
                framed(*old(self), *self),
                forall|o: Seq<Number>|
                    extends(o, self.log@) ==> exec_block(statements@, 0, None, #[trigger] state_of(*old(self), o), fuel as nat) == exec_block(
                    statements@,
                    i as int,
                    view_slot(pending),
                    state_of(*self, o),
                    fuel as nat,
                ),
            decreases statements.len() - i,
        {
            match self.exec_with(&statements[i], fuel) {
                Err(e) => {
                    return Err(e);
                },
                Ok(Some(Literal::Return(v))) => {
                    return Ok(Some(Literal::Return(v)));
                },
                Ok(Some(Literal::Keyword(k))) => {
                    pending = Some(Literal::Keyword(k));
                },
                Ok(_) => {},
            }
            i += 1;
        }
        Ok(pending)
    }

    fn visit_class_stmt(
        &mut self,
        name: &Token,
        super_class: &Option<Expr>,
        methods: &Vec<Rc<FunctionDecl>>,
        fuel: u64,
    ) -> (r: RuntimeError<Option<Literal>>)
        ensures
            forall|o: Seq<Number>|
                extends(o, final(self).log@) ==> step_of(*final(self), o, r) == exec_class(name@, *super_class, methods@, #[trigger] state_of(*old(self), o), fuel as nat),
            framed(*old(self), *final(self)),
        decreases fuel, 1nat,
    {
        let parent: Option<Box<LoxClass>> = match super_class {
            Some(e) => match self.eval_with(e, fuel) {
                Err(e) => {
                    return Err(e);
                },
                Ok(Some(Literal::Class(c))) => {
                    let mut key = name.lexeme.clone();
                    key.append("-super");
                    proof {
                        reveal_with_fuel(view_slot, 3);
                    }
                    self.environment.define(key, Some(Literal::Class(c.copy())));
                    Some(Box::new(c))
                },
                Ok(_) => {
                    return Err(fault(name, "Super-class must be a class."));
                },
            },
            None => None,
        };
        define_class(name, parent, methods, &mut self.environment);
        Ok(None)
    }

    fn run_body(&mut self, stmts: &Vec<&Stmt>, fuel: u64) -> (r: RuntimeError<Option<Literal>>)
        ensures
            forall|o: Seq<Number>|
                extends(o, final(self).log@) ==> step_of(*final(self), o, r) == run_body(pointed(stmts@), 0, #[trigger] state_of(*old(self), o), fuel as nat),
            framed(*old(self), *final(self)),
        decreases fuel, 1 + stmts@.len(),
    {
        let mut i: usize = 0;
        while i < stmts.len()
            invariant
                i <= stmts.len(),
                framed(*old(self), *self),
                forall|o: Seq<Number>|
                    extends(o, self.log@) ==> run_body(pointed(stmts@), 0, #[trigger] state_of(*old(self), o), fuel as nat) == run_body(
                    pointed(stmts@),
                    i as int,
                    state_of(*self, o),
                    fuel as nat,
                ),
            decreases stmts.len() - i,
        {
            match self.exec_with(stmts[i], fuel) {
                Err(e) => {
                    return Err(e);
                },
                Ok(Some(Literal::Return(v))) => {
                    return Ok(Some(Literal::Return(v)));
                },
                Ok(Some(Literal::Keyword(k))) => {
                    return Ok(Some(Literal::Keyword(k)));
                },
                Ok(_) => {},
            }
            i += 1;
        }
        Ok(None)
    }

    fn post_steps(&mut self, stmts: &Vec<&Stmt>, loop_type: LoopType, fuel: u64) -> (r: RuntimeError<
        Option<Literal>,
    >)
        ensures
            forall|o: Seq<Number>|
                extends(o, final(self).log@) ==> step_of(*final(self), o, r) == post_steps(pointed(stmts@), loop_type, #[trigger] state_of(*old(self), o), fuel as nat),
            framed(*old(self), *final(self)),
        decreases fuel, 1nat,
    {
        let n: usize = stmts.len();
        match loop_type {
            LoopType::While => Ok(None),
            LoopType::For => if n >= 1 {
                self.exec_with(stmts[n - 1], fuel)
            } else {
                Ok(None)
            },
            LoopType::ForEach => if n >= 2 {
                match self.exec_with(stmts[n - 2], fuel) {
                    Err(e) => Err(e),
                    Ok(_) => self.exec_with(stmts[n - 1], fuel),
                }
            } else {
                Ok(None)
            },
        }
    }

    fn loop_pass(&mut self, body: &Stmt, stmts: &Vec<&Stmt>, fuel: u64) -> (r: RuntimeError<Option<Literal>>)
        requires
            pointed(stmts@) == flatten(*body),
        ensures
            forall|o: Seq<Number>|
                extends(o, final(self).log@) ==> step_of(*final(self), o, r) == loop_body(*body, #[trigger] state_of(*old(self), o), fuel as nat),
            framed(*old(self), *final(self)),
        decreases fuel, 2 + flatten(*body).len(),
    {
        match body {
            Stmt::Block { .. } => self.run_body(stmts, fuel),
            _ => self.exec_with(body, fuel),
        }
    }

    fn visit_while_stmt(&mut self, condition: &Expr, body: &Stmt, loop_type: LoopType, fuel: u64) -> (r: RuntimeError<
        Option<Literal>,
    >)
        ensures
            forall|o: Seq<Number>|
                extends(o, final(self).log@) ==> step_of(*final(self), o, r) == exec_while(*condition, *body, loop_type, #[trigger] state_of(*old(self), o), fuel as nat),
            framed(*old(self), *final(self)),
        decreases fuel, 3 + flatten(*body).len(),
    {
        let mut stmts: Vec<&Stmt> = Vec::new();
        Interpreter::collect_from_block(body, &mut stmts);
        assert(pointed(stmts@) =~= flatten(*body));
        let block: bool = match body {
            Stmt::Block { .. } => true,
            _ => false,
        };
        let mut left: u64 = fuel;
        loop
            invariant
                left <= fuel,
                framed(*old(self), *self),
                pointed(stmts@) == flatten(*body),
                block == (*body is Block),
                forall|o: Seq<Number>|
                    extends(o, self.log@) ==> exec_while(*condition, *body, loop_type, #[trigger] state_of(*old(self), o), fuel as nat) == exec_while(
                    *condition,
                    *body,
                    loop_type,
                    state_of(*self, o),
                    left as nat,
                ),
            decreases left,
        {
            match self.eval_with(condition, left) {
                Err(e) => {
                    return Err(e);
                },
                Ok(v) => {
                    if !is_truthy(&v) {
                        return Ok(None);
                    }
                },
            }
            let b = self.loop_pass(body, &stmts, left);
            match b {
                Err(e) => {
                    return Err(e);
                },
                Ok(Some(Literal::Return(v))) => {
                    return Ok(Some(Literal::Return(v)));
                },
                Ok(Some(Literal::Keyword(Signal::Break))) => {
                    return Ok(None);
                },
                Ok(Some(Literal::Keyword(Signal::Continue))) => {
                    if block {
                        match self.post_steps(&stmts, loop_type, left) {
                            Err(e) => {
                                return Err(e);
                            },
                            Ok(_) => {},
                        }
                    }
                },
                Ok(_) => {},
            }
            if left == 0 {
                return Err(out_of_depth());
            }
            left -= 1;
        }
    }
}

impl LoxFunction {
    /// The name the function was declared under.
    pub fn name(&self) -> (r: String)
        ensures
            r@ == crate::class::function_name(self@),
    {
        self.declaration.name.lexeme.clone()
    }

    /// Calls the function within the interpreter's depth: binds the
    /// parameters, in a fresh scope where `in_new_scope` asks for one, runs
    /// the body, and leaves the interpreter's environment as it was.
    pub fn call(&self, interpreter: &mut Interpreter, arguments: Vec<Option<Literal>>, in_new_scope: bool) -> (r:
        RuntimeError<Option<Literal>>)
        ensures
            forall|o: Seq<Number>|
                extends(o, final(interpreter).log@) ==> step_of(*final(interpreter), o, r) == outcome(
                    call_function(
                        self@,
                        view_items(arguments),
                        in_new_scope,
                        #[trigger] state_of(*old(interpreter), o),
                        old(interpreter).depth as nat,
                    ),
                ),
            framed(*old(interpreter), *final(interpreter)),
    {
        let fuel: u64 = interpreter.depth;
        let (result, _) = interpreter.call_function(self, arguments, in_new_scope, fuel);
        result
    }
}

impl LoxClass {
    /// Calls the class within the interpreter's depth: makes an instance and
    /// runs the initializer, where the class has one, on it.
    pub fn call(self, interpreter: &mut Interpreter, arguments: Vec<Option<Literal>>) -> (r: RuntimeError<
        Option<Literal>,
    >)
        ensures
            forall|o: Seq<Number>|
                extends(o, final(interpreter).log@) ==> step_of(*final(interpreter), o, r) == outcome(
                    instantiate(
                        self@,
                        view_items(arguments),
                        #[trigger] state_of(*old(interpreter), o),
                        old(interpreter).depth as nat,
                    ),
                ),
            framed(*old(interpreter), *final(interpreter)),
    {
        let fuel: u64 = interpreter.depth;
        let (result, _) = interpreter.instantiate(self, arguments, fuel);
        result
    }
}

/// The environment that a fresh interpreter starts with.
pub open spec fn initial_env() -> Seq<Seq<crate::value::BindingValue>> {
    crate::environment::env_define(
        crate::environment::env_define(
            crate::environment::env_define(
                seq![Seq::empty()],
                "clock"@,
                Some(Value::Function(crate::value::CallableValue::Native(Builtin::Clock))),
            ),
            "len"@,
            Some(Value::Function(crate::value::CallableValue::Native(Builtin::Len))),
        ),
        "debug"@,
        Some(Value::Function(crate::value::CallableValue::Native(Builtin::Debug))),
    )
}

fn collect_all<'a>(statements: &'a Vec<Stmt>, collection: &mut Vec<&'a Stmt>)
    ensures
        pointed(final(collection)@) == pointed(old(collection)@) + flatten_all(
            statements@,
            statements@.len() as int,
        ),
    decreases statements,
{
    let mut i: usize = 0;
    assert(pointed(collection@) =~= pointed(old(collection)@) + flatten_all(statements@, 0));
    while i < statements.len()
        invariant
            i <= statements.len(),
            pointed(collection@) == pointed(old(collection)@) + flatten_all(statements@, i as int),
        decreases statements.len() - i,
    {
        Interpreter::collect_from_block(&statements[i], collection);
        assert(pointed(collection@) =~= pointed(old(collection)@) + flatten_all(statements@, i + 1));
        i += 1;
    }
}

/// Binds a class to its name in `env`.
fn define_class(
    name: &Token,
    parent: Option<Box<LoxClass>>,
    methods: &Vec<Rc<FunctionDecl>>,
    env: &mut Environment,
)
    ensures
        final(env)@ == class_defined(
            name@,
            match parent {
                Some(b) => Some(Box::new(b@)),
                None => None,
            },
            methods@,
            old(env)@,
        ),
{
    env.define(name.lexeme.clone(), None);
    let ghost declared = env@;
    let mut built: Vec<LoxFunction> = Vec::new();
    let mut i: usize = 0;
    while i < methods.len()
        invariant
            i <= methods.len(),
            env@ == declared,
            built@.len() == i,
            forall|j: int|
                0 <= j < i ==> crate::value::view_function(#[trigger] built@[j]) == class_methods(
                    methods@,
                    name@.lexeme,
                    declared,
                )[j],
        decreases methods.len() - i,
    {
        let is_initializer: bool = methods[i].name.lexeme == name.lexeme;
        built.push(
            LoxFunction {
                declaration: share(&methods[i]),
                closure: env.copy(),
                f_type: FunctionType::Method,
                is_initializer,
            },
        );
        i += 1;
    }
    assert(crate::value::view_methods(built) =~= class_methods(methods@, name@.lexeme, declared));
    let class = LoxClass::new(name.lexeme.clone(), built, parent);
    assert(class@.methods == crate::value::view_methods(built));
    proof {
        reveal_with_fuel(view_slot, 3);
    }
    let _ = env.update(&name.lexeme, Some(Literal::Class(class)));
}

/// Assigns to slot `n` of what the place holds.
fn assign_slot(
    p: &Place,
    name: &Token,
    n: Number,
    op: Option<TokenType>,
    rhs: Option<Literal>,
    env: &mut Environment,
) -> (r: RuntimeError<Option<Literal>>)
    ensures
        match slot_assigned(p@, name@, n, op, view_slot(rhs), old(env)@) {
            Ok((e, x)) => final(env)@ == e && view_result(r) == Ok::<Option<Value>, Fault>(x),
            Err(f) => final(env)@ == old(env)@ && view_result(r) == Err::<Option<Value>, Fault>(f),
        },
{
    let whole = match p.read(env) {
        Err(e) => {
            return Err(e);
        },
        Ok(v) => v,
    };
    match take_items(whole) {
        Err(_) => Err(fault(name, "Only list types can be indexed.")),
        Ok((items, text)) => {
            if items.len() == 0 {
                return Err(fault(name, "Index out of range."));
            }
            let mut items = items;
            let k: usize = wrap(n.to_i32(), items.len());
            let ghost before = view_items(items);
            let mut current: Option<Literal> = None;
            std::mem::swap(&mut current, &mut items[k]);
            let stored = match combine(op, current, rhs) {
                Err(m) => {
                    return Err((name.copy(), m));
                },
                Ok(v) => v,
            };
            items.set(k, copy_slot(&stored));
            assert(view_items(items) =~= before.update(k as int, view_slot(stored)));
            let rebuilt = if text {
                Literal::String(crate::operators::join_strings(&items))
            } else {
                Literal::Collection(items)
            };
            match p.write(env, Some(rebuilt)) {
                Err(e) => Err(e),
                Ok(()) => Ok(stored),
            }
        },
    }
}

/// Says why what the place holds cannot be indexed, if it cannot.
fn refuse_index(p: &Place, token: &Token, env: &Environment) -> (r: Option<(Token, String)>)
    ensures
        match r {
            Some(e) => refused_index(p@, token@, env@) == Some(view_fault(e)),
            None => refused_index(p@, token@, env@) is None,
        },
{
    match p.read(env) {
        Err(e) => Some(e),
        Ok(whole) => match take_items(whole) {
            Ok(_) => None,
            Err(_) => Some(fault(token, "Only list types can be indexed.")),
        },
    }
}

/// Says why what the place holds has no fields to assign to, if it has none.
fn refuse_field(p: &Place, name: &Token, env: &Environment) -> (r: Option<(Token, String)>)
    ensures
        match r {
            Some(e) => refused_field(p@, name@, env@) == Some(view_fault(e)),
            None => refused_field(p@, name@, env@) is None,
        },
{
    match p.read(env) {
        Err(e) => Some(e),
        Ok(Some(Literal::Instance(_))) => None,
        Ok(_) => Some(fault(name, "Only instances have fields.")),
    }
}

/// Where the call of `callee`, whose place is `p`, writes `this` back.
fn write_back(callee: &Expr, p: &Place, env: &Environment) -> (r: WriteBack)
    ensures
        r == write_back_of(*callee, p@, env@),
{
    proof {
        reveal_with_fuel(view_slot, 3);
    }
    match p {
        Place::Field(base, name) => match base.read(env) {
            Ok(Some(Literal::Instance(i))) => {
                if find_name(&i.fields, &name.lexeme) < i.fields.len() {
                    WriteBack::Nowhere
                } else {
                    WriteBack::Receiver
                }
            },
            _ => WriteBack::Nowhere,
        },
        _ => match callee {
            Expr::Super { .. } => WriteBack::Super,
            _ => WriteBack::Nowhere,
        },
    }
}

/// Writes back what a callee did to `this`.
fn reproject(target: WriteBack, p: &Place, this_after: Option<Option<Literal>>, env: &mut Environment) -> (r:
    RuntimeError<()>)
    ensures
        match reprojected(
            target,
            p@,
            match this_after {
                Some(v) => Some(view_slot(v)),
                None => None,
            },
            old(env)@,
        ) {
            Ok(e) => r is Ok && final(env)@ == e,
            Err(f) => r is Err && view_fault(r->Err_0) == f && final(env)@ == old(env)@,
        },
{
    proof {
        reveal_with_fuel(view_slot, 4);
    }
    match (target, p, this_after) {
        (WriteBack::Receiver, Place::Field(base, _), Some(Some(v))) => base.write(env, Some(v)),
        (WriteBack::Super, _, Some(Some(Literal::Instance(after)))) => {
            let name = String::from_str("this");
            match env.lookup(&name) {
                Some(Some(Literal::Instance(mine))) => {
                    let merged = LoxInstance { class: mine.class, fields: after.fields };
                    let _ = env.update(&name, Some(Literal::Instance(merged)));
                    Ok(())
                },
                _ => Ok(()),
            }
        },
        _ => Ok(()),
    }
}

} // verus!
