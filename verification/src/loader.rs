//! The lines of a scene description: the header, and one directive a line.

use crate::matvec::{lemma_rebuilt, pair, quadruple, triple, MatVec};
use crate::scalar::Scalar;
use crate::shapes::{broadcast, channels};
use crate::text::{parse_i32, parse_u32, signed, spells, split_whitespace, unsigned, views, words};
use vstd::prelude::*;

verus! {

/// Why a line of a scene description is refused.
#[derive(Clone, Copy, Debug, PartialEq, Eq, Structural)]
pub enum LoadError {
    /// The header does not have its four words.
    Format,
    /// The line starts with no known action.
    Action,
    /// An argument is missing.
    Missing,
    /// An argument is not the number it should be.
    Number,
    /// An index names no vertex.
    Index,
}

/// The first line of a scene description.
pub struct Header {
    pub magic: Vec<char>,
    /// The second word: how many pixels the image is wide.
    pub width: u32,
    /// The third word: how many pixels the image is high.
    pub height: u32,
    /// The file that the image goes to.
    pub out_file: Vec<char>,
}

/// The header that a line writes: four words, the second and third of
/// them whole numbers, the width and the height of the image.
pub fn parse_header(line: &Vec<char>) -> (r: Result<Header, LoadError>)
    ensures
        words(line@).len() != 4 ==> r == Err::<Header, LoadError>(LoadError::Format),
        words(line@).len() == 4 ==> r.is_ok() == (unsigned(words(line@)[1]).is_some() && unsigned(
            words(line@)[2],
        ).is_some()),
        words(line@).len() == 4 && r.is_err() ==> r == Err::<Header, LoadError>(LoadError::Number),
        r matches Ok(header) ==> {
            &&& header.magic@ == words(line@)[0]
            &&& Some(header.width) == unsigned(words(line@)[1])
            &&& Some(header.height) == unsigned(words(line@)[2])
            &&& header.out_file@ == words(line@)[3]
        },
{
    let mut parts = split_whitespace(line);
    if parts.len() != 4 {
        return Err(LoadError::Format);
    }
    assert(views(parts@)[0] == parts@[0]@);
    assert(views(parts@)[1] == parts@[1]@);
    assert(views(parts@)[2] == parts@[2]@);
    assert(views(parts@)[3] == parts@[3]@);
    let width = parse_u32(&parts[1]);
    let height = parse_u32(&parts[2]);
    match (width, height) {
        (Some(width), Some(height)) => {
            let out_file = parts.pop().unwrap();
            let _ = parts.pop();
            let _ = parts.pop();
            let magic = parts.pop().unwrap();
            Ok(Header { magic, height, width, out_file })
        },
        _ => Err(LoadError::Number),
    }
}

/// What a line of a scene description asks for.
#[derive(Clone, Copy, Debug)]
pub enum Directive {
    Sphere { center: MatVec<3>, radius: Scalar },
    Sun { direction: MatVec<3> },
    Color { color: MatVec<3> },
    Expose { exposure: Scalar },
    Up { up: MatVec<3> },
    Eye { eye: MatVec<3> },
    Forward { forward: MatVec<3> },
    Fisheye,
    Panorama,
    Plane { coeffs: MatVec<4> },
    Xyz { vertex: MatVec<3> },
    Tri { indices: [i32; 3] },
    Bulb { position: MatVec<3> },
    /// The texture named by the word after the action.
    Texture,
    Texcoord { texcoord: MatVec<2> },
    Shininess { shininess: Option<MatVec<3>> },
    Bounces { bounces: u32 },
    Ior { ior: Scalar },
    Transparency { transparency: Option<MatVec<3>> },
    Roughness { roughness: Scalar },
    Aa { aa: u32 },
    Dof { dof: MatVec<2> },
}

/// The number that argument `k` of a line of `count` words writes.
/// `numbers` holds, for each word after the first, the number that it writes, if any.
pub open spec fn number_at(count: nat, numbers: Seq<Option<Scalar>>, k: int) -> Result<Scalar, LoadError> {
    if k + 1 >= count {
        Err(LoadError::Missing)
    } else if k < numbers.len() && numbers[k].is_some() {
        Ok(numbers[k].unwrap())
    } else {
        Err(LoadError::Number)
    }
}

/// The first `n` arguments as numbers, or why the first of them that is
/// no number is none.
pub open spec fn numbers_to(count: nat, numbers: Seq<Option<Scalar>>, n: nat) -> Result<Seq<Scalar>, LoadError>
    decreases n,
{
    if n == 0 {
        Ok(Seq::empty())
    } else {
        match numbers_to(count, numbers, (n - 1) as nat) {
            Err(e) => Err(e),
            Ok(before) => match number_at(count, numbers, n - 1) {
                Err(e) => Err(e),
                Ok(v) => Ok(before.push(v)),
            },
        }
    }
}

fn number(count: usize, numbers: &Vec<Option<Scalar>>, k: usize) -> (r: Result<Scalar, LoadError>)
    ensures
        r == number_at(count as nat, numbers@, k as int),
{
    if k >= count || k + 1 >= count {
        Err(LoadError::Missing)
    } else if k < numbers.len() {
        match numbers[k] {
            Some(v) => Ok(v),
            None => Err(LoadError::Number),
        }
    } else {
        Err(LoadError::Number)
    }
}

fn vector<const N: usize>(count: usize, numbers: &Vec<Option<Scalar>>) -> (r: Result<MatVec<N>, LoadError>)
    ensures
        r.is_ok() == numbers_to(count as nat, numbers@, N as nat).is_ok(),
        r matches Ok(v) ==> Ok::<Seq<Scalar>, LoadError>(v@) == numbers_to(count as nat, numbers@, N as nat),
        r matches Err(e) ==> Err::<Seq<Scalar>, LoadError>(e) == numbers_to(count as nat, numbers@, N as nat),
{
    let mut cells: [Scalar; N] = [Scalar { bits: 0 };N];
    let mut k: usize = 0;
    assert(cells@.take(0) =~= Seq::<Scalar>::empty());
    while k < N
        invariant
            k <= N,
            cells@.len() == N,
            numbers_to(count as nat, numbers@, k as nat) == Ok::<Seq<Scalar>, LoadError>(cells@.take(k as int)),
        decreases N - k,
    {
        match number(count, numbers, k) {
            Err(e) => {
                proof {
                    lemma_failure_stays(count as nat, numbers@, (k + 1) as nat, N as nat);
                }
                return Err(e);
            },
            Ok(v) => {
                let ghost before = cells@.take(k as int);
                cells[k] = v;
                assert(cells@.take(k + 1) =~= before.push(v));
            },
        }
        k = k + 1;
    }
    assert(cells@.take(N as int) =~= cells@);
    Ok(MatVec { data: cells })
}

/// Once an argument has failed, the failure is that of every longer list.
proof fn lemma_failure_stays(count: nat, numbers: Seq<Option<Scalar>>, n: nat, m: nat)
    requires
        n <= m,
        numbers_to(count, numbers, n).is_err(),
    ensures
        numbers_to(count, numbers, m) == numbers_to(count, numbers, n),
    decreases m,
{
    if n < m {
        lemma_failure_stays(count, numbers, n, (m - 1) as nat);
    }
}

/// Every argument of a line as a number, or why the first of them that is
/// no number is none.
fn all_numbers(count: usize, numbers: &Vec<Option<Scalar>>) -> (r: Result<Vec<Scalar>, LoadError>)
    requires
        count >= 1,
    ensures
        r.is_ok() == numbers_to(count as nat, numbers@, (count - 1) as nat).is_ok(),
        r matches Ok(v) ==> Ok::<Seq<Scalar>, LoadError>(v@) == numbers_to(
            count as nat,
            numbers@,
            (count - 1) as nat,
        ),
        r matches Err(e) ==> Err::<Seq<Scalar>, LoadError>(e) == numbers_to(
            count as nat,
            numbers@,
            (count - 1) as nat,
        ),
{
    let mut found: Vec<Scalar> = Vec::new();
    let mut k: usize = 0;
    while k + 1 < count
        invariant
            k + 1 <= count,
            numbers_to(count as nat, numbers@, k as nat) == Ok::<Seq<Scalar>, LoadError>(found@),
        decreases count - k,
    {
        match number(count, numbers, k) {
            Err(e) => {
                proof {
                    lemma_failure_stays(count as nat, numbers@, (k + 1) as nat, (count - 1) as nat);
                }
                return Err(e);
            },
            Ok(v) => {
                found.push(v);
            },
        }
        k = k + 1;
    }
    Ok(found)
}

/// What a line asks for. An empty line and a line that starts with `#`
/// ask for nothing. Any other line starts with an action and goes on
/// with the arguments of that action: `numbers` holds, for each word after
/// the first, the number that it writes, if it writes one.
pub open spec fn directive_of(line: Seq<char>, numbers: Seq<Option<Scalar>>) -> Result<Option<Directive>, LoadError> {
    let w = words(line);
    let count = w.len();
    if line.len() == 0 || line[0] == '#' {
        Ok(None)
    } else if count == 0 {
        Err(LoadError::Missing)
    } else if w[0] == "sphere"@ {
        match numbers_to(count, numbers, 4) {
            Err(e) => Err(e),
            Ok(v) => Ok(Some(Directive::Sphere { center: triple(v), radius: v[3] })),
        }
    } else if w[0] == "sun"@ {
        match numbers_to(count, numbers, 3) {
            Err(e) => Err(e),
            Ok(v) => Ok(Some(Directive::Sun { direction: triple(v) })),
        }
    } else if w[0] == "color"@ {
        match numbers_to(count, numbers, 3) {
            Err(e) => Err(e),
            Ok(v) => Ok(Some(Directive::Color { color: triple(v) })),
        }
    } else if w[0] == "up"@ {
        match numbers_to(count, numbers, 3) {
            Err(e) => Err(e),
            Ok(v) => Ok(Some(Directive::Up { up: triple(v) })),
        }
    } else if w[0] == "eye"@ {
        match numbers_to(count, numbers, 3) {
            Err(e) => Err(e),
            Ok(v) => Ok(Some(Directive::Eye { eye: triple(v) })),
        }
    } else if w[0] == "forward"@ {
        match numbers_to(count, numbers, 3) {
            Err(e) => Err(e),
            Ok(v) => Ok(Some(Directive::Forward { forward: triple(v) })),
        }
    } else if w[0] == "xyz"@ {
        match numbers_to(count, numbers, 3) {
            Err(e) => Err(e),
            Ok(v) => Ok(Some(Directive::Xyz { vertex: triple(v) })),
        }
    } else if w[0] == "bulb"@ {
        match numbers_to(count, numbers, 3) {
            Err(e) => Err(e),
            Ok(v) => Ok(Some(Directive::Bulb { position: triple(v) })),
        }
    } else if w[0] == "expose"@ {
        match numbers_to(count, numbers, 1) {
            Err(e) => Err(e),
            Ok(v) => Ok(Some(Directive::Expose { exposure: v[0] })),
        }
    } else if w[0] == "ior"@ {
        match numbers_to(count, numbers, 1) {
            Err(e) => Err(e),
            Ok(v) => Ok(Some(Directive::Ior { ior: v[0] })),
        }
    } else if w[0] == "roughness"@ {
        match numbers_to(count, numbers, 1) {
            Err(e) => Err(e),
            Ok(v) => Ok(Some(Directive::Roughness { roughness: v[0] })),
        }
    } else if w[0] == "texcoord"@ {
        match numbers_to(count, numbers, 2) {
            Err(e) => Err(e),
            Ok(v) => Ok(Some(Directive::Texcoord { texcoord: pair(v) })),
        }
    } else if w[0] == "dof"@ {
        match numbers_to(count, numbers, 2) {
            Err(e) => Err(e),
            Ok(v) => Ok(Some(Directive::Dof { dof: pair(v) })),
        }
    } else if w[0] == "plane"@ {
        match numbers_to(count, numbers, 4) {
            Err(e) => Err(e),
            Ok(v) => Ok(Some(Directive::Plane { coeffs: quadruple(v) })),
        }
    } else if w[0] == "fisheye"@ {
        Ok(Some(Directive::Fisheye))
    } else if w[0] == "panorama"@ {
        Ok(Some(Directive::Panorama))
    } else if w[0] == "texture"@ {
        if count < 2 {
            Err(LoadError::Missing)
        } else {
            Ok(Some(Directive::Texture))
        }
    } else if w[0] == "shininess"@ {
        match numbers_to(count, numbers, (count - 1) as nat) {
            Err(e) => Err(e),
            Ok(v) => Ok(Some(Directive::Shininess { shininess: channels(v) })),
        }
    } else if w[0] == "transparency"@ {
        match numbers_to(count, numbers, (count - 1) as nat) {
            Err(e) => Err(e),
            Ok(v) => Ok(Some(Directive::Transparency { transparency: channels(v) })),
        }
    } else if w[0] == "bounces"@ {
        if count < 2 {
            Err(LoadError::Missing)
        } else {
            match unsigned(w[1]) {
                None => Err(LoadError::Number),
                Some(v) => Ok(Some(Directive::Bounces { bounces: v })),
            }
        }
    } else if w[0] == "aa"@ {
        if count < 2 {
            Err(LoadError::Missing)
        } else {
            match unsigned(w[1]) {
                None => Err(LoadError::Number),
                Some(v) => Ok(Some(Directive::Aa { aa: v })),
            }
        }
    } else if w[0] == "tri"@ {
        if count != 4 {
            Err(LoadError::Missing)
        } else {
            match (signed(w[1]), signed(w[2]), signed(w[3])) {
                (Some(a), Some(b), Some(c)) => Ok(Some(Directive::Tri { indices: [a, b, c] })),
                _ => Err(LoadError::Number),
            }
        }
    } else {
        Err(LoadError::Action)
    }
}

impl Directive {
    /// Reads a line of a scene description.
    pub fn parse(line: &Vec<char>, numbers: &Vec<Option<Scalar>>) -> (r: Result<Option<Directive>, LoadError>)
        ensures
            r == directive_of(line@, numbers@),
    {
        if line.len() == 0 || line[0] == '#' {
            return Ok(None);
        }
        let tokens = split_whitespace(line);
        let count = tokens.len();
        if count == 0 {
            return Err(LoadError::Missing);
        }
        assert(views(tokens@)[0] == tokens@[0]@);
        assert(count >= 2 ==> views(tokens@)[1] == tokens@[1]@);
        assert(count >= 4 ==> views(tokens@)[2] == tokens@[2]@ && views(tokens@)[3] == tokens@[3]@);
        if spells(&tokens[0], "sphere") {
            match vector::<4>(count, numbers) {
                Err(e) => Err(e),
                Ok(v) => Ok(
                    Some(
                        Directive::Sphere {
                            center: MatVec { data: [v.get(0), v.get(1), v.get(2)] },
                            radius: v.get(3),
                        },
                    ),
                ),
            }
        } else if spells(&tokens[0], "sun") {
            match vector::<3>(count, numbers) {
                Err(e) => Err(e),
                Ok(v) => {
                    proof {
                        lemma_rebuilt(pair(v@), v, quadruple(v@));
                    }
                    Ok(Some(Directive::Sun { direction: v }))
                },
            }
        } else if spells(&tokens[0], "color") {
            match vector::<3>(count, numbers) {
                Err(e) => Err(e),
                Ok(v) => {
                    proof {
                        lemma_rebuilt(pair(v@), v, quadruple(v@));
                    }
                    Ok(Some(Directive::Color { color: v }))
                },
            }
        } else if spells(&tokens[0], "up") {
            match vector::<3>(count, numbers) {
                Err(e) => Err(e),
                Ok(v) => {
                    proof {
                        lemma_rebuilt(pair(v@), v, quadruple(v@));
                    }
                    Ok(Some(Directive::Up { up: v }))
                },
            }
        } else if spells(&tokens[0], "eye") {
            match vector::<3>(count, numbers) {
                Err(e) => Err(e),
                Ok(v) => {
                    proof {
                        lemma_rebuilt(pair(v@), v, quadruple(v@));
                    }
                    Ok(Some(Directive::Eye { eye: v }))
                },
            }
        } else if spells(&tokens[0], "forward") {
            match vector::<3>(count, numbers) {
                Err(e) => Err(e),
                Ok(v) => {
                    proof {
                        lemma_rebuilt(pair(v@), v, quadruple(v@));
                    }
                    Ok(Some(Directive::Forward { forward: v }))
                },
            }
        } else if spells(&tokens[0], "xyz") {
            match vector::<3>(count, numbers) {
                Err(e) => Err(e),
                Ok(v) => {
                    proof {
                        lemma_rebuilt(pair(v@), v, quadruple(v@));
                    }
                    Ok(Some(Directive::Xyz { vertex: v }))
                },
            }
        } else if spells(&tokens[0], "bulb") {
            match vector::<3>(count, numbers) {
                Err(e) => Err(e),
                Ok(v) => {
                    proof {
                        lemma_rebuilt(pair(v@), v, quadruple(v@));
                    }
                    Ok(Some(Directive::Bulb { position: v }))
                },
            }
        } else if spells(&tokens[0], "expose") {
            match vector::<1>(count, numbers) {
                Err(e) => Err(e),
                Ok(v) => Ok(Some(Directive::Expose { exposure: v.get(0) })),
            }
        } else if spells(&tokens[0], "ior") {
            match vector::<1>(count, numbers) {
                Err(e) => Err(e),
                Ok(v) => Ok(Some(Directive::Ior { ior: v.get(0) })),
            }
        } else if spells(&tokens[0], "roughness") {
            match vector::<1>(count, numbers) {
                Err(e) => Err(e),
                Ok(v) => Ok(Some(Directive::Roughness { roughness: v.get(0) })),
            }
        } else if spells(&tokens[0], "texcoord") {
            match vector::<2>(count, numbers) {
                Err(e) => Err(e),
                Ok(v) => {
                    proof {
                        lemma_rebuilt(v, triple(v@), quadruple(v@));
                    }
                    Ok(Some(Directive::Texcoord { texcoord: v }))
                },
            }
        } else if spells(&tokens[0], "dof") {
            match vector::<2>(count, numbers) {
                Err(e) => Err(e),
                Ok(v) => {
                    proof {
                        lemma_rebuilt(v, triple(v@), quadruple(v@));
                    }
                    Ok(Some(Directive::Dof { dof: v }))
                },
            }
        } else if spells(&tokens[0], "plane") {
            match vector::<4>(count, numbers) {
                Err(e) => Err(e),
                Ok(v) => {
                    proof {
                        lemma_rebuilt(pair(v@), triple(v@), v);
                    }
                    Ok(Some(Directive::Plane { coeffs: v }))
                },
            }
        } else if spells(&tokens[0], "fisheye") {
            Ok(Some(Directive::Fisheye))
        } else if spells(&tokens[0], "panorama") {
            Ok(Some(Directive::Panorama))
        } else if spells(&tokens[0], "texture") {
            if count < 2 {
                Err(LoadError::Missing)
            } else {
                Ok(Some(Directive::Texture))
            }
        } else if spells(&tokens[0], "shininess") {
            match all_numbers(count, numbers) {
                Err(e) => Err(e),
                Ok(v) => Ok(Some(Directive::Shininess { shininess: broadcast(&v) })),
            }
        } else if spells(&tokens[0], "transparency") {
            match all_numbers(count, numbers) {
                Err(e) => Err(e),
                Ok(v) => Ok(Some(Directive::Transparency { transparency: broadcast(&v) })),
            }
        } else if spells(&tokens[0], "bounces") {
            if count < 2 {
                Err(LoadError::Missing)
            } else {
                match parse_u32(&tokens[1]) {
                    None => Err(LoadError::Number),
                    Some(v) => Ok(Some(Directive::Bounces { bounces: v })),
                }
            }
        } else if spells(&tokens[0], "aa") {
            if count < 2 {
                Err(LoadError::Missing)
            } else {
                match parse_u32(&tokens[1]) {
                    None => Err(LoadError::Number),
                    Some(v) => Ok(Some(Directive::Aa { aa: v })),
                }
            }
        } else if spells(&tokens[0], "tri") {
            if count != 4 {
                Err(LoadError::Missing)
            } else {
                match (parse_i32(&tokens[1]), parse_i32(&tokens[2]), parse_i32(&tokens[3])) {
                    (Some(a), Some(b), Some(c)) => Ok(Some(Directive::Tri { indices: [a, b, c] })),
                    _ => Err(LoadError::Number),
                }
            }
        } else {
            Err(LoadError::Action)
        }
    }
}

} // verus!
