use l32::L32;

#[test]
fn sqrt() {
    let cases: [(u32, u32); 16] = [
        (0xC0000000, 0xC0000000),
        (0x80000000, 0xC0000000),
        (0x80000001, 0xC0000000),
        (0x81234567, 0xC0000000),
        (0xF3FCFEF3, 0xC0000000),
        (0xFFFFFFFF, 0xC0000000),
        (0x00000000, 0x00000000),
        (0x00000001, 0x00000000),
        (0x00800000, 0x00400000),
        (0x00800001, 0x00400000),
        (0x3FFFFFFF, 0x1FFFFFFF),
        (0x70006101, 0x78003080),
        (0x7FFFFFFF, 0x7FFFFFFF),
        (0x40000000, 0x40000000),
        (0x40000001, 0x60000000),
        (0x60000000, 0x70000000),
    ];
    for &(a, res) in cases.iter() {
        let test1 = L32::from_bits(a).sqrt().to_bits();
        if test1 != res {
            panic!("test case failed: sqrt({a:08X})\n expected: {res:08X}\n      got: {test1:08X}");
        }
    }
}

#[test]
fn mul() {
    let cases: [(u32, u32, u32); 17] = [
        // Overflow
        (0xBFFFFFFF, 0x00000001, 0xC0000000),
        (0xBFFFFFFF, 0x80000001, 0x40000000),
        (0x3FFFFFFF, 0x00000001, 0x40000000),
        (0x3FFFFFFF, 0x80000001, 0xC0000000),
        // Multiply by 0
        (0xBFFFFFFF, 0x40000000, 0x40000000),
        (0x3FFFFFFF, 0x40000000, 0x40000000),
        (0x00000000, 0x40000000, 0x40000000),
        (0x80000000, 0x40000000, 0x40000000),
        (0xDEADBEEF, 0x40000000, 0x40000000),
        // NaR preservation
        (0xDEADBEEF, 0xC0000000, 0xC0000000),
        (0x00000000, 0xC0000000, 0xC0000000),
        (0x80000000, 0xC0000000, 0xC0000000),
        (0x40000000, 0xC0000000, 0xC0000000),
        (0xBFFFFFFF, 0x80000000, 0x3FFFFFFF),
        (0x7FFFFFFF, 0x00000001, 0x00000000),
        (0xFFFFFFFF, 0x00000001, 0x80000000),
        (0xDEADBEEF, 0xBEEFDEAD, 0x1D9D9D9C),
    ];
    for &(a, b, res) in cases.iter() {
        let test1 = L32::from_bits(a).mul(L32::from_bits(b)).to_bits();
        let test2 = L32::from_bits(b).mul(L32::from_bits(a)).to_bits();
        if test1 != res {
            panic!("test case failed: {a:08X} * {b:08X}\n expected: {res:08X}\n      got: {test1:08X}");
        }
        if test2 != res {
            panic!("test case not commutative: {a:08X} * {b:08X}\n expected: {res:08X}\n      got: {test2:08X}");
        }
    }
}

#[test]
fn div() {
    let cases: [(u32, u32, u32); 26] = [
        // Overflow
        (0xBFFFFFFF, 0x7FFFFFFF, 0xC0000000),
        (0xBFFFFFFF, 0xFFFFFFFF, 0x40000000),
        (0x3FFFFFFF, 0x7FFFFFFF, 0x40000000),
        (0x3FFFFFFF, 0xFFFFFFFF, 0xC0000000),
        // 0/x
        (0x40000000, 0xBFFFFFFF, 0x40000000),
        (0x40000000, 0x3FFFFFFF, 0x40000000),
        (0x40000000, 0x00000000, 0x40000000),
        (0x40000000, 0x80000000, 0x40000000),
        (0x40000000, 0xDEADBEEF, 0x40000000),
        (0x40000000, 0x00000001, 0x40000000),
        // NaR preservation
        (0xDEADBEEF, 0xC0000000, 0xC0000000),
        (0x00000000, 0xC0000000, 0xC0000000),
        (0x80000000, 0xC0000000, 0xC0000000),
        (0xC0000000, 0xDEADBEEF, 0xC0000000),
        (0xC0000000, 0x00000000, 0xC0000000),
        (0xC0000000, 0x80000000, 0xC0000000),
        // Division by 0
        (0xBFFFFFFF, 0x40000000, 0xC0000000),
        (0x3FFFFFFF, 0x40000000, 0xC0000000),
        (0x00000000, 0x40000000, 0xC0000000),
        (0x80000000, 0x40000000, 0xC0000000),
        (0xDEADBEEF, 0x40000000, 0xC0000000),
        (0x00000001, 0x40000000, 0xC0000000),
        (0xBFFFFFFF, 0x80000000, 0x3FFFFFFF),
        (0x00000000, 0x00000001, 0x7FFFFFFF),
        (0x80000000, 0x00000001, 0xFFFFFFFF),
        (0xDEADBEEF, 0xBEEFDEAD, 0x1FBDE042),
    ];
    for &(a, b, res) in cases.iter() {
        let test1 = L32::from_bits(a).div(L32::from_bits(b)).to_bits();
        if test1 != res {
            panic!("test case failed: {a:08X} / {b:08X}\n expected: {res:08X}\n      got: {test1:08X}");
        }
    }
}

#[test]
fn add() {
    let cases: [(u32, u32, u32); 17] = [
        // Adding 0
        (0xBFFFFFFF, 0x40000000, 0xBFFFFFFF),
        (0x3FFFFFFF, 0x40000000, 0x3FFFFFFF),
        (0x00000000, 0x40000000, 0x00000000),
        (0x80000000, 0x40000000, 0x80000000),
        (0xDEADBEEF, 0x40000000, 0xDEADBEEF),
        // NaR preservation
        (0xDEADBEEF, 0xC0000000, 0xC0000000),
        (0x00000000, 0xC0000000, 0xC0000000),
        (0x80000000, 0xC0000000, 0xC0000000),
        (0x40000000, 0xC0000000, 0xC0000000),
        // Overflow
        (0x3FFFFFFF, 0x343BFAE6, 0x40000000),
        (0xBFFFFFFF, 0x80000001, 0x40000000),
        (0x3FFFFFFF, 0x00000001, 0x40000000),
        (0x3FFFFFFF, 0x80000001, 0xC0000000),
        (0xBFFFFFFF, 0x80000000, 0x3FFFFFFF),
        (0x7FFFFFFF, 0x00000001, 0x00000000),
        (0xFFFFFFFF, 0x00000001, 0x80000000),
        (0xDEADBEEF, 0xBEEFDEAD, 0x1D9D9D9C),
    ];
    for &(a, b, res) in cases.iter() {
        let test1 = L32::from_bits(a).add(L32::from_bits(b)).to_bits();
        let test2 = L32::from_bits(b).add(L32::from_bits(a)).to_bits();
        if test1 != res {
            panic!("test case failed: {a:08X} + {b:08X}\n expected: {res:08X}\n      got: {test1:08X}");
        }
        if test2 != res {
            panic!("test case not commutative: {a:08X} + {b:08X}\n expected: {res:08X}\n      got: {test2:08X}");
        }
    }
}
