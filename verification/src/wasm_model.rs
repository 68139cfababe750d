use vstd::prelude::*;

use crate::builtin_func::{memarg, op};
use crate::builtin_funcs::{
    law_mod_is_euclidean, spec_abs_int_code, spec_mod_code, spec_mod_steps, spec_range_iter_advance_code, trunc_rem,
};
use crate::wasmtypes::Opcode;

verus! {

/// A 32-bit little-endian word of memory at address `a`.
pub open spec fn word(mem: Seq<u8>, a: int) -> int {
    mem[a] + 256 * mem[a + 1] + 65536 * mem[a + 2] + 16777216 * mem[a + 3]
}

/// Memory with the 32-bit value `v` stored little-endian at address `a`.
pub open spec fn store_word(mem: Seq<u8>, a: int, v: int) -> Seq<u8> {
    mem.update(a, (v % 256) as u8).update(a + 1, ((v / 256) % 256) as u8).update(
        a + 2,
        ((v / 65536) % 256) as u8,
    ).update(a + 3, ((v / 16777216) % 256) as u8)
}

/// The signed reading of a 32-bit pattern.
pub open spec fn signed(v: int) -> int {
    if v >= 0x8000_0000 {
        v - 0x1_0000_0000
    } else {
        v
    }
}

/// Division rounding toward zero, as the WebAssembly specification defines
/// `i32.div_s`.
pub open spec fn trunc_quot(x: int, y: int) -> int {
    let ax = if x < 0 { -x } else { x };
    let ay = if y < 0 { -y } else { y };
    if (x < 0) != (y < 0) {
        -(ax / ay)
    } else {
        ax / ay
    }
}

/// Bitwise exclusive or of two 32-bit patterns (`i32.xor`).
pub open spec fn xor32(x: int, y: int) -> int {
    ((x as u32) ^ (y as u32)) as int
}

/// Arithmetic shift right of a 32-bit pattern by `y` modulo 32 (`i32.shr_s`):
/// the signed reading divided by 2^k, rounding down, as a pattern again.
pub open spec fn shr_s32(x: int, y: int) -> int {
    (signed(x) / (vstd::arithmetic::power2::pow2((y % 32) as nat) as int)) % 0x1_0000_0000
}

/// Remainder of signed division, with the sign of the dividend
/// (`i32.rem_s`): `x - y * trunc(x / y)` on the signed readings, as a pattern.
pub open spec fn rem_s32(x: int, y: int) -> int {
    (signed(x) - trunc_quot(signed(x), signed(y)) * signed(y)) % 0x1_0000_0000
}

/// The number of bytes of the instruction at `pc`, for the instructions the
/// model knows (0 for any other).
pub open spec fn instr_len(code: Seq<u8>, pc: int) -> int {
    let b = code[pc];
    if b == 0x05u8 || b == 0x0bu8 || b == 0x46u8 || b == 0x47u8 || b == 0x48u8 || b == 0x4au8 || b == 0x4cu8
        || b == 0x4eu8 || b == 0x6au8 || b == 0x6bu8 || b == 0x6cu8 || b == 0x6du8 || b == 0x6eu8 || b == 0x6fu8
        || b == 0x73u8 || b == 0x75u8 {
        1
    } else if b == 0x04u8 || b == 0x20u8 || b == 0x21u8 || b == 0x22u8 {
        2
    } else if b == 0x41u8 && pc + 1 < code.len() && code[pc + 1] < 128 {
        2
    } else if b == 0x28u8 || b == 0x36u8 {
        3
    } else {
        0
    }
}

/// Scanning instruction by instruction from `pc`, inside `depth` blocks
/// opened since, the position of the `else` or `end` that closes the block
/// the scan started in, or -1 where the code ends first or holds an
/// instruction the model does not know.
pub open spec fn block_close(code: Seq<u8>, pc: int, depth: nat) -> int
    decreases code.len() - pc,
{
    if pc < 0 || pc >= code.len() {
        -1
    } else if code[pc] == 0x0bu8 {
        if depth == 0 {
            pc
        } else {
            block_close(code, pc + 1, (depth - 1) as nat)
        }
    } else if code[pc] == 0x05u8 && depth == 0 {
        pc
    } else {
        let n = instr_len(code, pc);
        if n == 0 || pc + n > code.len() {
            -1
        } else {
            block_close(code, pc + n, if code[pc] == 0x04u8 { depth + 1 } else { depth })
        }
    }
}

/// A model of WebAssembly execution for 32-bit code, by the meaning the
/// WebAssembly specification gives each instruction byte: `if` (0x04, its
/// block type byte not checked), `else` (0x05), `end` (0x0b), `local.get`/`local.set`/`local.tee` (0x20-0x22, one-byte
/// indices), `i32.load` (0x28) and `i32.store` (0x36) with one-byte
/// alignment and offset, `i32.const` (0x41, one-byte immediates), `i32.eq`
/// (0x46), `i32.ne` (0x47), `i32.lt_s` (0x48), `i32.gt_s` (0x4a), `i32.le_s`
/// (0x4c), `i32.ge_s` (0x4e), `i32.add` (0x6a), `i32.sub` (0x6b), `i32.mul`
/// (0x6c), `i32.div_s` (0x6d), `i32.div_u` (0x6e), `i32.rem_s` (0x6f), `i32.xor` (0x73) and
/// `i32.shr_s` (0x75). `depth` counts the `if` blocks open at `pc`; the stack
/// heights of blocks are not checked.
/// Values are 32-bit patterns (0 to 2^32 - 1). From `pc` on, it gives the
/// locals, the operand stack and the memory at the `end` of the function or
/// at the end of the code, or `None` where the code traps or leaves the model.
#[verifier::opaque]
pub open spec fn run_at_depth(code: Seq<u8>, pc: int, depth: nat, locals: Seq<int>, stack: Seq<int>, mem: Seq<u8>) -> Option<
    (Seq<int>, Seq<int>, Seq<u8>),
>
    decreases code.len() - pc,
{
    if pc < 0 || pc > code.len() {
        None
    } else if pc == code.len() {
        Some((locals, stack, mem))
    } else {
        let b = code[pc];
        let n = stack.len();
        let has_imm = pc + 1 < code.len() && code[pc + 1] < 128;
        if b == 0x0bu8 {
            if depth == 0 {
                Some((locals, stack, mem))
            } else {
                run_at_depth(code, pc + 1, (depth - 1) as nat, locals, stack, mem)
            }
        } else if b == 0x04u8 {
            if pc + 1 < code.len() && n > 0 {
                let rest = stack.drop_last();
                if stack.last() != 0 {
                    run_at_depth(code, pc + 2, depth + 1, locals, rest, mem)
                } else {
                    let k = block_close(code, pc + 2, 0);
                    if pc < k < code.len() {
                        if code[k] == 0x05u8 {
                            run_at_depth(code, k + 1, depth + 1, locals, rest, mem)
                        } else {
                            run_at_depth(code, k + 1, depth, locals, rest, mem)
                        }
                    } else {
                        None
                    }
                }
            } else {
                None
            }
        } else if b == 0x05u8 {
            let k = block_close(code, pc + 1, 0);
            if depth > 0 && pc < k < code.len() && code[k] == 0x0bu8 {
                run_at_depth(code, k + 1, (depth - 1) as nat, locals, stack, mem)
            } else {
                None
            }
        } else if b == 0x20u8 {
            if has_imm && (code[pc + 1] as int) < locals.len() {
                run_at_depth(code, pc + 2, depth, locals, stack.push(locals[code[pc + 1] as int]), mem)
            } else {
                None
            }
        } else if b == 0x21u8 || b == 0x22u8 {
            if has_imm && (code[pc + 1] as int) < locals.len() && n > 0 {
                let locals2 = locals.update(code[pc + 1] as int, stack.last());
                run_at_depth(code, pc + 2, depth, locals2, if b == 0x21u8 { stack.drop_last() } else { stack }, mem)
            } else {
                None
            }
        } else if b == 0x41u8 {
            if has_imm {
                let v: int = if code[pc + 1] < 64 { code[pc + 1] as int } else { code[pc + 1] - 128 };
                run_at_depth(code, pc + 2, depth, locals, stack.push(v % 0x1_0000_0000), mem)
            } else {
                None
            }
        } else if b == 0x28u8 {
            if pc + 2 < code.len() && code[pc + 2] < 128 && n > 0 && stack.last() + code[pc + 2] + 4 <= mem.len() {
                let a = stack.last() + code[pc + 2];
                run_at_depth(code, pc + 3, depth, locals, stack.drop_last().push(word(mem, a)), mem)
            } else {
                None
            }
        } else if b == 0x36u8 {
            if pc + 2 < code.len() && code[pc + 2] < 128 && n > 1 && stack[n - 2] + code[pc + 2] + 4 <= mem.len() {
                let a = stack[n - 2] + code[pc + 2];
                run_at_depth(code, pc + 3, depth, locals, stack.drop_last().drop_last(), store_word(mem, a, stack[n - 1]))
            } else {
                None
            }
        } else if b == 0x46u8 || b == 0x47u8 || b == 0x48u8 || b == 0x4au8 || b == 0x4cu8 || b == 0x4eu8
            || b == 0x6au8 || b == 0x6bu8 || b == 0x6cu8 || b == 0x6du8 || b == 0x6eu8 || b == 0x6fu8 || b == 0x73u8
            || b == 0x75u8 {
            if n > 1 {
                let x = stack[n - 2];
                let y = stack[n - 1];
                let rest = stack.drop_last().drop_last();
                if b == 0x46u8 {
                    run_at_depth(code, pc + 1, depth, locals, rest.push(if x == y { 1 } else { 0 }), mem)
                } else if b == 0x47u8 {
                    run_at_depth(code, pc + 1, depth, locals, rest.push(if x != y { 1 } else { 0 }), mem)
                } else if b == 0x4au8 {
                    run_at_depth(code, pc + 1, depth, locals, rest.push(if signed(x) > signed(y) { 1 } else { 0 }), mem)
                } else if b == 0x4cu8 {
                    run_at_depth(code, pc + 1, depth, locals, rest.push(if signed(x) <= signed(y) { 1 } else { 0 }), mem)
                } else if b == 0x4eu8 {
                    run_at_depth(code, pc + 1, depth, locals, rest.push(if signed(x) >= signed(y) { 1 } else { 0 }), mem)
                } else if b == 0x48u8 {
                    run_at_depth(code, pc + 1, depth, locals, rest.push(if signed(x) < signed(y) { 1 } else { 0 }), mem)
                } else if b == 0x6fu8 {
                    if signed(y) == 0 {
                        None
                    } else {
                        run_at_depth(code, pc + 1, depth, locals, rest.push(rem_s32(x, y)), mem)
                    }
                } else if b == 0x6au8 {
                    run_at_depth(code, pc + 1, depth, locals, rest.push((x + y) % 0x1_0000_0000), mem)
                } else if b == 0x6bu8 {
                    run_at_depth(code, pc + 1, depth, locals, rest.push((x - y) % 0x1_0000_0000), mem)
                } else if b == 0x6cu8 {
                    run_at_depth(code, pc + 1, depth, locals, rest.push((x * y) % 0x1_0000_0000), mem)
                } else if b == 0x73u8 {
                    run_at_depth(code, pc + 1, depth, locals, rest.push(xor32(x, y)), mem)
                } else if b == 0x75u8 {
                    run_at_depth(code, pc + 1, depth, locals, rest.push(shr_s32(x, y)), mem)
                } else if b == 0x6du8 {
                    if signed(y) == 0 || (signed(x) == -0x8000_0000 && signed(y) == -1) {
                        None
                    } else {
                        run_at_depth(
                            code,
                            pc + 1,
                            depth,
                            locals,
                            rest.push(trunc_quot(signed(x), signed(y)) % 0x1_0000_0000),
                            mem,
                        )
                    }
                } else {
                    if y == 0 {
                        None
                    } else {
                        run_at_depth(code, pc + 1, depth, locals, rest.push(x / y), mem)
                    }
                }
            } else {
                None
            }
        } else {
            None
        }
    }
}

/// Runs `code` from `pc` outside any block: the function body level.
pub open spec fn run_i32(code: Seq<u8>, pc: int, locals: Seq<int>, stack: Seq<int>, mem: Seq<u8>) -> Option<
    (Seq<int>, Seq<int>, Seq<u8>),
> {
    run_at_depth(code, pc, 0, locals, stack, mem)
}


/// The code integer division is compiled to (`Wasmizer::write_div` on
/// `Int`).
pub open spec fn int_division_code() -> Seq<u8> {
    op(Opcode::I32DivS)
}

/// The code `-x` is compiled to on integers (`Wasmizer::write_negate` on
/// `Int`): a multiplication by -1.
pub open spec fn int_negation_code() -> Seq<u8> {
    op(Opcode::I32Const) + seq![0x7fu8] + op(Opcode::I32Mul)
}

/// Integer negation gives the negative of the value read as a signed
/// number, as a 32-bit pattern: `-5` is the pattern of -5, and `i32::MIN`
/// wraps to itself.
pub proof fn law_int_negation(x: int, locals: Seq<int>, stack: Seq<int>, mem: Seq<u8>)
    requires
        0 <= x < 0x1_0000_0000,
    ensures
        run_i32(int_negation_code(), 0, locals, stack.push(x), mem) == Some(
            (locals, stack.push((-signed(x)) % 0x1_0000_0000), mem),
        ),
{
    let code = int_negation_code();
    assert(code =~= seq![0x41u8, 0x7fu8, 0x6cu8]);
    let m1: int = 0xffff_ffff;
    let v = (x * m1) % 0x1_0000_0000;
    assert(x * m1 == x * 0x1_0000_0000 + (-x)) by (nonlinear_arith)
        requires
            m1 == 0xffff_ffff,
    ;
    assert(v == (-x) % 0x1_0000_0000) by {
        vstd::arithmetic::div_mod::lemma_mod_multiples_vanish(x, -x, 0x1_0000_0000);
    }
    if x >= 0x8000_0000 {
        assert(-signed(x) == -x + 0x1_0000_0000);
        vstd::arithmetic::div_mod::lemma_mod_multiples_vanish(1, -x, 0x1_0000_0000);
    }
    assert(v == (-signed(x)) % 0x1_0000_0000);
    reveal(run_at_depth);
    let st = stack.push(x);
    assert(st.push(m1).drop_last().drop_last() =~= stack);
    assert(run_at_depth(code, 3, 0, locals, stack.push(v), mem) == Some((locals, stack.push(v), mem)));
    assert(run_at_depth(code, 2, 0, locals, st.push(m1), mem) == run_at_depth(code, 3, 0, locals, stack.push(v), mem));
    assert(run_at_depth(code, 0, 0, locals, st, mem) == run_at_depth(code, 2, 0, locals, st.push(m1), mem));
}

/// The code integer division is compiled to divides signed 32-bit values rounding
/// toward zero: the quotient `q` and remainder `x - q * y` satisfy
/// `|remainder| < |y|`, and a nonzero remainder has the sign of `x`. So, for
/// example, 2 divided by -1 is -2, not an unsigned quotient.
pub proof fn law_int_division_is_signed(x: int, y: int, locals: Seq<int>, stack: Seq<int>, mem: Seq<u8>)
    requires
        0 <= x < 0x1_0000_0000,
        0 <= y < 0x1_0000_0000,
        signed(y) != 0,
        !(signed(x) == -0x8000_0000 && signed(y) == -1),
    ensures
        match run_i32(int_division_code(), 0, locals, stack.push(x).push(y), mem) {
            Some((l, s, m)) => {
                let sx = signed(x);
                let sy = signed(y);
                let q = signed(s.last());
                let rem = sx - q * sy;
                &&& l == locals && m == mem && s.len() == stack.len() + 1 && s.drop_last() == stack
                &&& 0 <= s.last() < 0x1_0000_0000
                &&& (if rem < 0 { -rem } else { rem }) < (if sy < 0 { -sy } else { sy })
                &&& (rem == 0 || (rem < 0) == (sx < 0))
            },
            None => false,
        },
{
    let sx = signed(x);
    let sy = signed(y);
    let ax: int = if sx < 0 { -sx } else { sx };
    let ay: int = if sy < 0 { -sy } else { sy };
    let qa = ax / ay;
    let ra = ax % ay;
    assert(ax == qa * ay + ra && 0 <= ra < ay) by {
        vstd::arithmetic::div_mod::lemma_fundamental_div_mod(ax, ay);
    }
    assert(0 <= qa <= ax) by (nonlinear_arith)
        requires
            ax == qa * ay + ra,
            0 <= ra < ay,
            ay >= 1,
            ax >= 0,
    ;
    let q = trunc_quot(sx, sy);
    assert(q == if (sx < 0) != (sy < 0) { -qa } else { qa });
    if qa == 0x8000_0000 {
        assert(ax == 0x8000_0000);
        assert(ay == 1) by (nonlinear_arith)
            requires
                ax == qa * ay + ra,
                0 <= ra < ay,
                qa == 0x8000_0000,
                ax == 0x8000_0000,
        ;
    }
    assert(-0x8000_0000 <= q < 0x8000_0000);
    let r = q % 0x1_0000_0000;
    assert(signed(r) == q);
    let code = int_division_code();
    assert(code =~= seq![0x6du8]);
    reveal(run_at_depth);
    let st = stack.push(x).push(y);
    assert(st.drop_last().drop_last() =~= stack);
    assert(run_i32(code, 1, locals, stack.push(r), mem) == Some((locals, stack.push(r), mem)));
    assert(run_i32(code, 0, locals, st, mem) == run_i32(code, 1, locals, stack.push(r), mem));
    let rem = sx - q * sy;
    if (sx < 0) != (sy < 0) {
        if sx < 0 {
            assert(rem == -ra) by (nonlinear_arith)
                requires
                    sx == -ax,
                    sy == ay,
                    q == -qa,
                    ax == qa * ay + ra,
                    rem == sx - q * sy,
            ;
        } else {
            assert(rem == ra) by (nonlinear_arith)
                requires
                    sx == ax,
                    sy == -ay,
                    q == -qa,
                    ax == qa * ay + ra,
                    rem == sx - q * sy,
            ;
        }
    } else {
        if sx < 0 {
            assert(rem == -ra) by (nonlinear_arith)
                requires
                    sx == -ax,
                    sy == -ay,
                    q == qa,
                    ax == qa * ay + ra,
                    rem == sx - q * sy,
            ;
        } else {
            assert(rem == ra) by (nonlinear_arith)
                requires
                    sx == ax,
                    sy == ay,
                    q == qa,
                    ax == qa * ay + ra,
                    rem == sx - q * sy,
            ;
        }
    }
}


/// `local.get i` pushes local `i`.
proof fn step_get(code: Seq<u8>, pc: int, l: Seq<int>, st: Seq<int>, m: Seq<u8>, d: nat)
    requires
        0 <= pc,
        pc + 1 < code.len(),
        code[pc] == 0x20u8,
        code[pc + 1] < 128,
        (code[pc + 1] as int) < l.len(),
    ensures
        run_at_depth(code, pc, d, l, st, m) == run_at_depth(code, pc + 2, d, l, st.push(l[code[pc + 1] as int]), m),
{
    reveal(run_at_depth);
}

/// `local.set i` pops into local `i`; `local.tee i` copies the top into it.
proof fn step_set(code: Seq<u8>, pc: int, l: Seq<int>, st: Seq<int>, m: Seq<u8>, d: nat)
    requires
        0 <= pc,
        pc + 1 < code.len(),
        code[pc] == 0x21u8 || code[pc] == 0x22u8,
        code[pc + 1] < 128,
        (code[pc + 1] as int) < l.len(),
        st.len() > 0,
    ensures
        run_at_depth(code, pc, d, l, st, m) == run_at_depth(
            code,
            pc + 2,
            d,
            l.update(code[pc + 1] as int, st.last()),
            if code[pc] == 0x21u8 { st.drop_last() } else { st },
            m,
        ),
{
    reveal(run_at_depth);
}

/// `i32.const v` pushes `v` (small non-negative immediates).
proof fn step_const(code: Seq<u8>, pc: int, l: Seq<int>, st: Seq<int>, m: Seq<u8>, d: nat)
    requires
        0 <= pc,
        pc + 1 < code.len(),
        code[pc] == 0x41u8,
        code[pc + 1] < 64,
    ensures
        run_at_depth(code, pc, d, l, st, m) == run_at_depth(code, pc + 2, d, l, st.push(code[pc + 1] as int), m),
{
    reveal(run_at_depth);
}

/// `i32.load` with offset 0 replaces an address by the word there.
proof fn step_load(code: Seq<u8>, pc: int, l: Seq<int>, st: Seq<int>, m: Seq<u8>, d: nat)
    requires
        0 <= pc,
        pc + 2 < code.len(),
        code[pc] == 0x28u8,
        code[pc + 2] == 0u8,
        st.len() > 0,
        st.last() + 4 <= m.len(),
    ensures
        run_at_depth(code, pc, d, l, st, m) == run_at_depth(code, pc + 3, d, l, st.drop_last().push(word(m, st.last())), m),
{
    reveal(run_at_depth);
}

/// `i32.store` with offset 0 stores the top value at the address below it.
proof fn step_store(code: Seq<u8>, pc: int, l: Seq<int>, st: Seq<int>, m: Seq<u8>, d: nat)
    requires
        0 <= pc,
        pc + 2 < code.len(),
        code[pc] == 0x36u8,
        code[pc + 2] == 0u8,
        st.len() > 1,
        st[st.len() - 2] + 4 <= m.len(),
    ensures
        run_at_depth(code, pc, d, l, st, m) == run_at_depth(
            code,
            pc + 3,
            d,
            l,
            st.drop_last().drop_last(),
            store_word(m, st[st.len() - 2], st.last()),
        ),
{
    reveal(run_at_depth);
}

/// `i32.add` and `i32.eq` replace the top two values by their sum modulo
/// 2^32, or by 1 if they are equal and 0 if not.
proof fn step_binop(code: Seq<u8>, pc: int, l: Seq<int>, st: Seq<int>, m: Seq<u8>, d: nat)
    requires
        0 <= pc < code.len(),
        code[pc] == 0x6au8 || code[pc] == 0x46u8,
        st.len() > 1,
    ensures
        run_at_depth(code, pc, d, l, st, m) == run_at_depth(
            code,
            pc + 1,
            d,
            l,
            st.drop_last().drop_last().push(
                if code[pc] == 0x6au8 {
                    (st[st.len() - 2] + st.last()) % 0x1_0000_0000
                } else if st[st.len() - 2] == st.last() {
                    1int
                } else {
                    0int
                },
            ),
            m,
        ),
{
    reveal(run_at_depth);
}

/// `end` stops with what is there.
proof fn step_end(code: Seq<u8>, pc: int, l: Seq<int>, st: Seq<int>, m: Seq<u8>)
    requires
        0 <= pc < code.len(),
        code[pc] == 0x0bu8,
    ensures
        run_i32(code, pc, l, st, m) == Some((l, st, m)),
{
    reveal(run_at_depth);
}

/// Running the advance function of a range iterator on a range struct at
/// `off` (current value at `off`, step at `off + 8`, stop at `off + 12`, all
/// 32-bit): it stores `current + step` as the new current value, and returns 1
/// exactly when that new value equals `stop + step` (the range is past its
/// stop), 0 otherwise, for steps of either sign. So a range from `a` to `b`
/// hands out every value from `a` to `b` inclusive, also when `b < a`.
#[verifier::spinoff_prover]
#[verifier::rlimit(100)]
pub proof fn law_range_advance(off: int, mem: Seq<u8>)
    requires
        0 <= off,
        off + 16 <= mem.len(),
        off + 16 < 0x1_0000_0000,
    ensures
        ({
            let cur = word(mem, off);
            let step = word(mem, off + 8);
            let stop = word(mem, off + 12);
            let next = (cur + step) % 0x1_0000_0000;
            let done = if next == (stop + step) % 0x1_0000_0000 { 1int } else { 0int };
            run_i32(spec_range_iter_advance_code(), 0, seq![off, 0, 0], Seq::empty(), mem) == Some((
                seq![off, next, step],
                seq![done],
                store_word(mem, off, next),
            ))
        }),
{
    reveal(spec_range_iter_advance_code);
    let code = spec_range_iter_advance_code();
    assert(memarg() == seq![0x02u8, 0x00u8]);
    assert(code =~= seq![
        0x20u8, 0u8, 0x41u8, 8u8, 0x6au8, 0x28u8, 0x02u8, 0x00u8, 0x22u8, 2u8,
        0x20u8, 0u8, 0x28u8, 0x02u8, 0x00u8, 0x6au8, 0x21u8, 1u8,
        0x20u8, 0u8, 0x20u8, 1u8, 0x36u8, 0x02u8, 0x00u8,
        0x20u8, 0u8, 0x41u8, 12u8, 0x6au8, 0x28u8, 0x02u8, 0x00u8,
        0x20u8, 2u8, 0x6au8, 0x20u8, 1u8, 0x46u8, 0x0bu8,
    ]);
    let cur = word(mem, off);
    let step = word(mem, off + 8);
    let stop = word(mem, off + 12);
    let next = (cur + step) % 0x1_0000_0000;
    let m2 = store_word(mem, off, next);
    let e: Seq<int> = Seq::empty();
    let l0 = seq![off, 0int, 0int];
    let l1 = l0.update(2, step);
    let l2 = l1.update(1, next);
    assert(l2 =~= seq![off, next, step]);
    assert(word(m2, off + 12) == stop);
    let sum = (stop + step) % 0x1_0000_0000;
    let done = if next == sum { 1int } else { 0int };
    assert(code[39] == 0x0bu8);
    step_end(code, 39, l2, seq![done], m2);
    step_binop(code, 38, l2, seq![sum, next], m2, 0);
    assert(seq![sum, next].drop_last().drop_last().push(done) =~= seq![done]);
    step_get(code, 36, l2, seq![sum], m2, 0);
    assert(seq![sum].push(next) =~= seq![sum, next]);
    step_binop(code, 35, l2, seq![stop, step], m2, 0);
    assert(seq![stop, step].drop_last().drop_last().push(sum) =~= seq![sum]);
    step_get(code, 33, l2, seq![stop], m2, 0);
    assert(seq![stop].push(step) =~= seq![stop, step]);
    step_load(code, 30, l2, seq![off + 12], m2, 0);
    assert(seq![off + 12].drop_last().push(stop) =~= seq![stop]);
    step_binop(code, 29, l2, seq![off, 12], m2, 0);
    assert(seq![off, 12int].drop_last().drop_last().push((off + 12) % 0x1_0000_0000) =~= seq![off + 12]);
    step_const(code, 27, l2, seq![off], m2, 0);
    assert(seq![off].push(12int) =~= seq![off, 12int]);
    step_get(code, 25, l2, e, m2, 0);
    assert(e.push(off) =~= seq![off]);
    step_store(code, 22, l2, seq![off, next], mem, 0);
    assert(seq![off, next].drop_last().drop_last() =~= e);
    step_get(code, 20, l2, seq![off], mem, 0);
    assert(seq![off].push(next) =~= seq![off, next]);
    step_get(code, 18, l2, e, mem, 0);
    step_set(code, 16, l1, seq![next], mem, 0);
    assert(seq![next].drop_last() =~= e);
    step_binop(code, 15, l1, seq![step, cur], mem, 0);
    assert(seq![step, cur].drop_last().drop_last().push(next) =~= seq![next]);
    step_load(code, 12, l1, seq![step, off], mem, 0);
    assert(seq![step, off].drop_last().push(cur) =~= seq![step, cur]);
    step_get(code, 10, l1, seq![step], mem, 0);
    assert(seq![step].push(off) =~= seq![step, off]);
    step_set(code, 8, l0, seq![step], mem, 0);
    step_load(code, 5, l0, seq![off + 8], mem, 0);
    assert(seq![off + 8].drop_last().push(step) =~= seq![step]);
    step_binop(code, 4, l0, seq![off, 8], mem, 0);
    assert(seq![off, 8int].drop_last().drop_last().push((off + 8) % 0x1_0000_0000) =~= seq![off + 8]);
    step_const(code, 2, l0, seq![off], mem, 0);
    assert(seq![off].push(8int) =~= seq![off, 8int]);
    step_get(code, 0, l0, e, mem, 0);
}

/// `i32.sub`, `i32.xor` and `i32.shr_s` replace the top two values by their
/// difference modulo 2^32, their exclusive or, or the arithmetic shift of the
/// lower one by the top one.
proof fn step_bits(code: Seq<u8>, pc: int, l: Seq<int>, st: Seq<int>, m: Seq<u8>, d: nat)
    requires
        0 <= pc < code.len(),
        code[pc] == 0x6bu8 || code[pc] == 0x73u8 || code[pc] == 0x75u8,
        st.len() > 1,
    ensures
        run_at_depth(code, pc, d, l, st, m) == run_at_depth(
            code,
            pc + 1,
            d,
            l,
            st.drop_last().drop_last().push(
                if code[pc] == 0x6bu8 {
                    (st[st.len() - 2] - st.last()) % 0x1_0000_0000
                } else if code[pc] == 0x73u8 {
                    xor32(st[st.len() - 2], st.last())
                } else {
                    shr_s32(st[st.len() - 2], st.last())
                },
            ),
            m,
        ),
{
    reveal(run_at_depth);
}

/// Running the code of the `abs` builtin on integers (`define_builtin_abs_int`)
/// on a 32-bit `x` gives the absolute value of `x` read as a signed number,
/// as a 32-bit pattern: `x` itself when it is not negative, its negation when
/// it is (and `i32::MIN` wraps to itself, as two's complement has it).
#[verifier::spinoff_prover]
#[verifier::rlimit(50)]
pub proof fn law_abs_int(x: int, mem: Seq<u8>)
    requires
        0 <= x < 0x1_0000_0000,
    ensures
        ({
            let sx = signed(x);
            let a = if sx < 0 { -sx } else { sx };
            run_i32(spec_abs_int_code(), 0, seq![x, 0], Seq::empty(), mem) matches Some((l, s, m)) && s == seq![
                a % 0x1_0000_0000] && m == mem
        }),
{
    reveal(spec_abs_int_code);
    let code = spec_abs_int_code();
    assert(code =~= seq![
        0x20u8, 0u8, 0x41u8, 31u8, 0x75u8, 0x22u8, 1u8, 0x20u8, 0u8, 0x73u8, 0x20u8, 1u8, 0x6bu8, 0x0bu8,
    ]);
    vstd::arithmetic::power2::lemma2_to64();
    let sx = signed(x);
    let mask: int = if x < 0x8000_0000 { 0 } else { 0xffff_ffff };
    assert(shr_s32(x, 31) == mask) by {
        assert(vstd::arithmetic::power2::pow2(31) == 0x8000_0000);
        if x < 0x8000_0000 {
            assert(sx / 0x8000_0000 == 0);
        } else {
            assert(sx / 0x8000_0000 == -1);
        }
    }
    let xu: u32 = x as u32;
    assert(xu as int == x);
    let flipped: int = if x < 0x8000_0000 { x } else { 0xffff_ffff - x };
    assert(xor32(mask, x) == flipped) by {
        if x < 0x8000_0000 {
            assert(0u32 ^ xu == xu) by (bit_vector);
            assert((mask as u32) == 0u32);
        } else {
            assert(0xffff_ffffu32 ^ xu == 0xffff_ffffu32 - xu) by (bit_vector);
            assert((mask as u32) == 0xffff_ffffu32);
        }
    }
    let res = (flipped - mask) % 0x1_0000_0000;
    let a = if sx < 0 { -sx } else { sx };
    assert(res == a % 0x1_0000_0000);
    let e: Seq<int> = Seq::empty();
    let l0 = seq![x, 0int];
    let l1 = l0.update(1, mask);
    step_end(code, 13, l1, seq![res], mem);
    step_bits(code, 12, l1, seq![flipped, mask], mem, 0);
    assert(seq![flipped, mask].drop_last().drop_last().push(res) =~= seq![res]);
    step_get(code, 10, l1, seq![flipped], mem, 0);
    assert(seq![flipped].push(mask) =~= seq![flipped, mask]);
    step_bits(code, 9, l1, seq![mask, x], mem, 0);
    assert(seq![mask, x].drop_last().drop_last().push(flipped) =~= seq![flipped]);
    step_get(code, 7, l1, seq![mask], mem, 0);
    assert(seq![mask].push(x) =~= seq![mask, x]);
    step_set(code, 5, l0, seq![mask], mem, 0);
    step_bits(code, 4, l0, seq![x, 31], mem, 0);
    assert(seq![x, 31int].drop_last().drop_last().push(mask) =~= seq![mask]);
    step_const(code, 2, l0, seq![x], mem, 0);
    assert(seq![x].push(31int) =~= seq![x, 31int]);
    step_get(code, 0, l0, e, mem, 0);
    assert(e.push(x) =~= seq![x]);
}

/// `i32.lt_s` compares the signed readings of the top two values;
/// `i32.rem_s` replaces them by the remainder of their signed division.
proof fn step_signed(code: Seq<u8>, pc: int, l: Seq<int>, st: Seq<int>, m: Seq<u8>, d: nat)
    requires
        0 <= pc < code.len(),
        code[pc] == 0x48u8 || code[pc] == 0x6fu8,
        st.len() > 1,
        code[pc] == 0x6fu8 ==> signed(st.last()) != 0,
    ensures
        run_at_depth(code, pc, d, l, st, m) == run_at_depth(
            code,
            pc + 1,
            d,
            l,
            st.drop_last().drop_last().push(
                if code[pc] == 0x6fu8 {
                    rem_s32(st[st.len() - 2], st.last())
                } else if signed(st[st.len() - 2]) < signed(st.last()) {
                    1int
                } else {
                    0int
                },
            ),
            m,
        ),
{
    reveal(run_at_depth);
}

/// `if` on a nonzero condition enters its first branch.
proof fn step_if_taken(code: Seq<u8>, pc: int, l: Seq<int>, st: Seq<int>, m: Seq<u8>, d: nat)
    requires
        0 <= pc,
        pc + 1 < code.len(),
        code[pc] == 0x04u8,
        st.len() > 0,
        st.last() != 0,
    ensures
        run_at_depth(code, pc, d, l, st, m) == run_at_depth(code, pc + 2, d + 1, l, st.drop_last(), m),
{
    reveal(run_at_depth);
}

/// `if` on zero goes on after the `else` of its block.
proof fn step_if_skipped(code: Seq<u8>, pc: int, l: Seq<int>, st: Seq<int>, m: Seq<u8>, d: nat, k: int)
    requires
        0 <= pc,
        pc + 1 < code.len(),
        code[pc] == 0x04u8,
        st.len() > 0,
        st.last() == 0,
        k == block_close(code, pc + 2, 0),
        pc < k < code.len(),
        code[k] == 0x05u8,
    ensures
        run_at_depth(code, pc, d, l, st, m) == run_at_depth(code, k + 1, d + 1, l, st.drop_last(), m),
{
    reveal(run_at_depth);
}

/// Reaching `else` at the end of a first branch goes on after the `end` of
/// the block.
proof fn step_else(code: Seq<u8>, pc: int, l: Seq<int>, st: Seq<int>, m: Seq<u8>, d: nat, k: int)
    requires
        0 <= pc < code.len(),
        code[pc] == 0x05u8,
        d > 0,
        k == block_close(code, pc + 1, 0),
        pc < k < code.len(),
        code[k] == 0x0bu8,
    ensures
        run_at_depth(code, pc, d, l, st, m) == run_at_depth(code, k + 1, (d - 1) as nat, l, st, m),
{
    reveal(run_at_depth);
}

/// `end` inside a block closes it.
proof fn step_end_block(code: Seq<u8>, pc: int, l: Seq<int>, st: Seq<int>, m: Seq<u8>, d: nat)
    requires
        0 <= pc < code.len(),
        code[pc] == 0x0bu8,
        d > 0,
    ensures
        run_at_depth(code, pc, d, l, st, m) == run_at_depth(code, pc + 1, (d - 1) as nat, l, st, m),
{
    reveal(run_at_depth);
}

/// The bytes of the `mod` builtin.
spec fn mod_bytes() -> Seq<u8> {
    seq![
        0x20u8, 0u8, 0x20u8, 1u8, 0x6fu8, 0x22u8, 2u8, 0x41u8, 0u8, 0x48u8, 0x04u8, 0x7fu8,
        0x20u8, 1u8, 0x41u8, 0u8, 0x48u8, 0x04u8, 0x7fu8, 0x20u8, 2u8, 0x20u8, 1u8, 0x6bu8, 0x05u8,
        0x20u8, 2u8, 0x20u8, 1u8, 0x6au8, 0x0bu8, 0x05u8, 0x20u8, 2u8, 0x0bu8, 0x0bu8,
    ]
}

/// Where the blocks of the `mod` builtin close.
proof fn lemma_mod_blocks()
    ensures
        block_close(mod_bytes(), 12, 0) == 31,
        block_close(mod_bytes(), 19, 0) == 24,
        block_close(mod_bytes(), 25, 0) == 30,
        block_close(mod_bytes(), 32, 0) == 34,
{
    let c = mod_bytes();
    assert(c.len() == 36);
    assert(block_close(c, 34, 0) == 34);
    assert(block_close(c, 32, 0) == 34);
    assert(block_close(c, 30, 0) == 30);
    assert(block_close(c, 29, 0) == 30);
    assert(block_close(c, 27, 0) == 30);
    assert(block_close(c, 25, 0) == 30);
    assert(block_close(c, 24, 0) == 24);
    assert(block_close(c, 23, 0) == 24);
    assert(block_close(c, 21, 0) == 24);
    assert(block_close(c, 19, 0) == 24);
    assert(block_close(c, 31, 0) == 31);
    assert(block_close(c, 30, 1) == 31);
    assert(block_close(c, 29, 1) == 31);
    assert(block_close(c, 27, 1) == 31);
    assert(block_close(c, 25, 1) == 31);
    assert(block_close(c, 24, 1) == 31);
    assert(block_close(c, 23, 1) == 31);
    assert(block_close(c, 21, 1) == 31);
    assert(block_close(c, 19, 1) == 31);
    assert(block_close(c, 17, 0) == 31);
    assert(block_close(c, 16, 0) == 31);
    assert(block_close(c, 14, 0) == 31);
    assert(block_close(c, 12, 0) == 31);
}

/// The remainder `i32.rem_s` gives, read as a signed number, is the remainder
/// with the sign of the dividend.
proof fn lemma_rem_s(x: int, y: int)
    requires
        0 <= x < 0x1_0000_0000,
        0 <= y < 0x1_0000_0000,
        signed(y) != 0,
    ensures
        signed(rem_s32(x, y)) == trunc_rem(signed(x), signed(y)),
        rem_s32(x, y) == trunc_rem(signed(x), signed(y)) % 0x1_0000_0000,
{
    let sx = signed(x);
    let sy = signed(y);
    let ax: int = if sx < 0 { -sx } else { sx };
    let ay: int = if sy < 0 { -sy } else { sy };
    let qa = ax / ay;
    let ra = ax % ay;
    assert(ax == qa * ay + ra && 0 <= ra < ay) by {
        vstd::arithmetic::div_mod::lemma_fundamental_div_mod(ax, ay);
    }
    let q = trunc_quot(sx, sy);
    let r = sx - q * sy;
    assert(r == if sx < 0 { -ra } else { ra }) by (nonlinear_arith)
        requires
            ax == qa * ay + ra,
            ax == if sx < 0 { -sx } else { sx },
            ay == if sy < 0 { -sy } else { sy },
            q == if (sx < 0) != (sy < 0) { -qa } else { qa },
            r == sx - q * sy,
    ;
    assert(trunc_rem(sx, sy) == r);
    assert(ay <= 0x8000_0000);
}

/// Running the code of the `mod` builtin (`define_builtin_mod`) on 32-bit
/// `x` and a nonzero 32-bit `y` gives the remainder of `x` by `y` that is
/// never negative (the Euclidean remainder, from 0 up to `|y|`), reading both
/// as signed numbers. So `mod(-7, 3)` is 2, and `mod(7, -3)` is 1.
#[verifier::spinoff_prover]
#[verifier::rlimit(100)]
pub proof fn law_mod_builtin(x: int, y: int, mem: Seq<u8>)
    requires
        0 <= x < 0x1_0000_0000,
        0 < y < 0x1_0000_0000,
    ensures
        ({
            let sy = signed(y);
            let ay = if sy < 0 { -sy } else { sy };
            run_i32(spec_mod_code(), 0, seq![x, y, 0], Seq::empty(), mem) matches Some((l, s, m)) && s == seq![
                signed(x) % ay] && m == mem
        }),
{
    reveal(spec_mod_code);
    let code = spec_mod_code();
    assert(code =~= mod_bytes());
    lemma_mod_blocks();
    let sx = signed(x);
    let sy = signed(y);
    let ay = if sy < 0 { -sy } else { sy };
    lemma_rem_s(x, y);
    let rp = rem_s32(x, y);
    let sr = trunc_rem(sx, sy);
    law_mod_is_euclidean(sx as i32, sy as i32);
    assert(spec_mod_steps(sx, sy) == sx % ay);
    let e: Seq<int> = Seq::empty();
    let l0 = seq![x, y, 0int];
    let l1 = l0.update(2, rp);
    assert(l1 =~= seq![x, y, rp]);
    step_get(code, 0, l0, e, mem, 0);
    assert(e.push(x) =~= seq![x]);
    step_get(code, 2, l0, seq![x], mem, 0);
    assert(seq![x].push(y) =~= seq![x, y]);
    step_signed(code, 4, l0, seq![x, y], mem, 0);
    assert(seq![x, y].drop_last().drop_last().push(rp) =~= seq![rp]);
    step_set(code, 5, l0, seq![rp], mem, 0);
    step_const(code, 7, l1, seq![rp], mem, 0);
    assert(seq![rp].push(0int) =~= seq![rp, 0int]);
    step_signed(code, 9, l1, seq![rp, 0int], mem, 0);
    let neg: int = if sr < 0 { 1 } else { 0 };
    assert(seq![rp, 0int].drop_last().drop_last().push(neg) =~= seq![neg]);
    assert(seq![neg].drop_last() =~= e);
    let res = sx % ay;
    if sr < 0 {
        step_if_taken(code, 10, l1, seq![neg], mem, 0);
        step_get(code, 12, l1, e, mem, 1);
        assert(e.push(y) =~= seq![y]);
        step_const(code, 14, l1, seq![y], mem, 1);
        assert(seq![y].push(0int) =~= seq![y, 0int]);
        step_signed(code, 16, l1, seq![y, 0int], mem, 1);
        let yneg: int = if sy < 0 { 1 } else { 0 };
        assert(seq![y, 0int].drop_last().drop_last().push(yneg) =~= seq![yneg]);
        assert(seq![yneg].drop_last() =~= e);
        if sy < 0 {
            step_if_taken(code, 17, l1, seq![yneg], mem, 1);
            step_get(code, 19, l1, e, mem, 2);
            assert(e.push(rp) =~= seq![rp]);
            step_get(code, 21, l1, seq![rp], mem, 2);
            assert(seq![rp].push(y) =~= seq![rp, y]);
            step_bits(code, 23, l1, seq![rp, y], mem, 2);
            let v = (rp - y) % 0x1_0000_0000;
            assert(seq![rp, y].drop_last().drop_last().push(v) =~= seq![v]);
            assert(v == res);
            step_else(code, 24, l1, seq![v], mem, 2, 30);
            step_else(code, 31, l1, seq![v], mem, 1, 34);
            step_end(code, 35, l1, seq![v], mem);
        } else {
            step_if_skipped(code, 17, l1, seq![yneg], mem, 1, 24);
            step_get(code, 25, l1, e, mem, 2);
            assert(e.push(rp) =~= seq![rp]);
            step_get(code, 27, l1, seq![rp], mem, 2);
            assert(seq![rp].push(y) =~= seq![rp, y]);
            step_binop(code, 29, l1, seq![rp, y], mem, 2);
            let v = (rp + y) % 0x1_0000_0000;
            assert(seq![rp, y].drop_last().drop_last().push(v) =~= seq![v]);
            assert(v == res);
            step_end_block(code, 30, l1, seq![v], mem, 2);
            step_else(code, 31, l1, seq![v], mem, 1, 34);
            step_end(code, 35, l1, seq![v], mem);
        }
    } else {
        step_if_skipped(code, 10, l1, seq![neg], mem, 0, 31);
        step_get(code, 32, l1, e, mem, 1);
        assert(e.push(rp) =~= seq![rp]);
        assert(rp == res);
        step_end_block(code, 34, l1, seq![rp], mem, 1);
        step_end(code, 35, l1, seq![rp], mem);
    }
}

/// The code each comparison and arithmetic operator is compiled to on
/// integers (and, for `==` and `!=`, on booleans) by `Wasmizer`; here `==`.
pub open spec fn int_eq_code() -> Seq<u8> {
    op(Opcode::I32Eq)
}

/// The code of `!=`.
pub open spec fn int_ne_code() -> Seq<u8> {
    op(Opcode::I32Ne)
}

/// The code of `<`.
pub open spec fn int_lt_code() -> Seq<u8> {
    op(Opcode::I32LtS)
}

/// The code of `>`.
pub open spec fn int_gt_code() -> Seq<u8> {
    op(Opcode::I32GtS)
}

/// The code of `<=`.
pub open spec fn int_le_code() -> Seq<u8> {
    op(Opcode::I32LeS)
}

/// The code of `>=`.
pub open spec fn int_ge_code() -> Seq<u8> {
    op(Opcode::I32GeS)
}

/// The code of `+`.
pub open spec fn int_add_code() -> Seq<u8> {
    op(Opcode::I32Add)
}

/// The code of `-`.
pub open spec fn int_sub_code() -> Seq<u8> {
    op(Opcode::I32Sub)
}

/// The code of `*`.
pub open spec fn int_mul_code() -> Seq<u8> {
    op(Opcode::I32Mul)
}

/// Running one instruction that replaces the top two values by `v`.
proof fn lemma_single_binop(code: Seq<u8>, locals: Seq<int>, stack: Seq<int>, mem: Seq<u8>, x: int, y: int, v: int)
    requires
        code.len() == 1,
        run_at_depth(code, 0, 0, locals, stack.push(x).push(y), mem) == run_at_depth(code, 1, 0, locals, stack.push(v), mem),
    ensures
        run_i32(code, 0, locals, stack.push(x).push(y), mem) == Some((locals, stack.push(v), mem)),
{
    reveal(run_at_depth);
}

/// What one instruction computes from the top two values.
proof fn step_single(code: Seq<u8>, locals: Seq<int>, stack: Seq<int>, mem: Seq<u8>, x: int, y: int)
    requires
        code.len() == 1,
        code[0] == 0x46u8 || code[0] == 0x47u8 || code[0] == 0x48u8 || code[0] == 0x4au8 || code[0] == 0x4cu8
            || code[0] == 0x4eu8 || code[0] == 0x6au8 || code[0] == 0x6bu8 || code[0] == 0x6cu8,
    ensures
        run_at_depth(code, 0, 0, locals, stack.push(x).push(y), mem) == run_at_depth(
            code,
            1,
            0,
            locals,
            stack.push(
                if code[0] == 0x46u8 {
                    if x == y { 1int } else { 0int }
                } else if code[0] == 0x47u8 {
                    if x != y { 1int } else { 0int }
                } else if code[0] == 0x48u8 {
                    if signed(x) < signed(y) { 1int } else { 0int }
                } else if code[0] == 0x4au8 {
                    if signed(x) > signed(y) { 1int } else { 0int }
                } else if code[0] == 0x4cu8 {
                    if signed(x) <= signed(y) { 1int } else { 0int }
                } else if code[0] == 0x4eu8 {
                    if signed(x) >= signed(y) { 1int } else { 0int }
                } else if code[0] == 0x6au8 {
                    (x + y) % 0x1_0000_0000
                } else if code[0] == 0x6bu8 {
                    (x - y) % 0x1_0000_0000
                } else {
                    (x * y) % 0x1_0000_0000
                },
            ),
            mem,
        ),
{
    reveal(run_at_depth);
    let st = stack.push(x).push(y);
    assert(st.drop_last().drop_last() =~= stack);
    assert(st[st.len() - 2] == x && st[st.len() - 1] == y);
}

/// On 32-bit operands `x` and `y` (below them, whatever the stack held
/// before), the code of each comparison leaves 1 when the comparison holds
/// and 0 when not, comparing the values read as signed numbers for the order
/// comparisons (so -1 < 0); `+`, `-` and `*` leave the sum, difference and
/// product modulo 2^32 (wrapping as two's complement arithmetic does).
pub proof fn law_int_operations(x: int, y: int, locals: Seq<int>, stack: Seq<int>, mem: Seq<u8>)
    requires
        0 <= x < 0x1_0000_0000,
        0 <= y < 0x1_0000_0000,
    ensures
        run_i32(int_eq_code(), 0, locals, stack.push(x).push(y), mem) == Some(
            (locals, stack.push(if x == y { 1int } else { 0int }), mem),
        ),
        run_i32(int_ne_code(), 0, locals, stack.push(x).push(y), mem) == Some(
            (locals, stack.push(if x != y { 1int } else { 0int }), mem),
        ),
        run_i32(int_lt_code(), 0, locals, stack.push(x).push(y), mem) == Some(
            (locals, stack.push(if signed(x) < signed(y) { 1int } else { 0int }), mem),
        ),
        run_i32(int_gt_code(), 0, locals, stack.push(x).push(y), mem) == Some(
            (locals, stack.push(if signed(x) > signed(y) { 1int } else { 0int }), mem),
        ),
        run_i32(int_le_code(), 0, locals, stack.push(x).push(y), mem) == Some(
            (locals, stack.push(if signed(x) <= signed(y) { 1int } else { 0int }), mem),
        ),
        run_i32(int_ge_code(), 0, locals, stack.push(x).push(y), mem) == Some(
            (locals, stack.push(if signed(x) >= signed(y) { 1int } else { 0int }), mem),
        ),
        run_i32(int_add_code(), 0, locals, stack.push(x).push(y), mem) == Some(
            (locals, stack.push((x + y) % 0x1_0000_0000), mem),
        ),
        run_i32(int_sub_code(), 0, locals, stack.push(x).push(y), mem) == Some(
            (locals, stack.push((x - y) % 0x1_0000_0000), mem),
        ),
        run_i32(int_mul_code(), 0, locals, stack.push(x).push(y), mem) == Some(
            (locals, stack.push((x * y) % 0x1_0000_0000), mem),
        ),
{
    assert(int_eq_code() =~= seq![0x46u8]);
    assert(int_ne_code() =~= seq![0x47u8]);
    assert(int_lt_code() =~= seq![0x48u8]);
    assert(int_gt_code() =~= seq![0x4au8]);
    assert(int_le_code() =~= seq![0x4cu8]);
    assert(int_ge_code() =~= seq![0x4eu8]);
    assert(int_add_code() =~= seq![0x6au8]);
    assert(int_sub_code() =~= seq![0x6bu8]);
    assert(int_mul_code() =~= seq![0x6cu8]);
    step_single(int_eq_code(), locals, stack, mem, x, y);
    lemma_single_binop(int_eq_code(), locals, stack, mem, x, y, if x == y { 1int } else { 0int });
    step_single(int_ne_code(), locals, stack, mem, x, y);
    lemma_single_binop(int_ne_code(), locals, stack, mem, x, y, if x != y { 1int } else { 0int });
    step_single(int_lt_code(), locals, stack, mem, x, y);
    lemma_single_binop(int_lt_code(), locals, stack, mem, x, y, if signed(x) < signed(y) { 1int } else { 0int });
    step_single(int_gt_code(), locals, stack, mem, x, y);
    lemma_single_binop(int_gt_code(), locals, stack, mem, x, y, if signed(x) > signed(y) { 1int } else { 0int });
    step_single(int_le_code(), locals, stack, mem, x, y);
    lemma_single_binop(int_le_code(), locals, stack, mem, x, y, if signed(x) <= signed(y) { 1int } else { 0int });
    step_single(int_ge_code(), locals, stack, mem, x, y);
    lemma_single_binop(int_ge_code(), locals, stack, mem, x, y, if signed(x) >= signed(y) { 1int } else { 0int });
    step_single(int_add_code(), locals, stack, mem, x, y);
    lemma_single_binop(int_add_code(), locals, stack, mem, x, y, (x + y) % 0x1_0000_0000);
    step_single(int_sub_code(), locals, stack, mem, x, y);
    lemma_single_binop(int_sub_code(), locals, stack, mem, x, y, (x - y) % 0x1_0000_0000);
    step_single(int_mul_code(), locals, stack, mem, x, y);
    lemma_single_binop(int_mul_code(), locals, stack, mem, x, y, (x * y) % 0x1_0000_0000);
}

} // verus!
