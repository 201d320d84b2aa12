use vstd::prelude::*;

verus! {

/// The part of an encoding that an operand fills.
#[allow(non_camel_case_types)]
#[derive(Clone, Copy, Debug, PartialEq, Eq, Structural)]
pub enum OpOrd {
    MODRM_REG,
    MODRM_RM,
    VEX_VVVV,
    NONE,
}

/// How a VEX-encoded mnemonic is put together: which operand fills which
/// part, the mandatory-prefix bits, the opcode map, VEX.W and the vector
/// length.
#[derive(Clone, Copy, Debug)]
pub struct GenAPI {
    pub ord: [OpOrd; 3],
    pub pp: Option<u8>,
    pub map_select: Option<u8>,
    pub vex_we: Option<bool>,
    pub vex_vlength: Option<bool>,
}

impl GenAPI {
    /// A description that names the operand order only.
    pub fn new(ord: [OpOrd; 3]) -> (r: Self)
        ensures
            r.ord == ord,
            r.pp is None,
            r.map_select is None,
            r.vex_we is None,
            r.vex_vlength is None,
    {
        GenAPI { ord, pp: None, map_select: None, vex_we: None, vex_vlength: None }
    }

    /// The same description with the mandatory-prefix bits, the opcode map
    /// and VEX.W set.
    pub fn vex(self, pp: u8, map_select: u8, vex_we: bool) -> (r: Self)
        ensures
            r.ord == self.ord,
            r.pp == Some(pp),
            r.map_select == Some(map_select),
            r.vex_we == Some(vex_we),
            r.vex_vlength == self.vex_vlength,
    {
        GenAPI {
            ord: self.ord,
            pp: Some(pp),
            map_select: Some(map_select),
            vex_we: Some(vex_we),
            vex_vlength: self.vex_vlength,
        }
    }

    /// The same description with a vector length that the operands do not
    /// decide.
    pub fn vlength(self, l: bool) -> (r: Self)
        ensures
            r.ord == self.ord,
            r.pp == self.pp,
            r.map_select == self.map_select,
            r.vex_we == self.vex_we,
            r.vex_vlength == Some(l),
    {
        GenAPI {
            ord: self.ord,
            pp: self.pp,
            map_select: self.map_select,
            vex_we: self.vex_we,
            vex_vlength: Some(l),
        }
    }

    /// The part that each operand fills.
    pub fn get_ord(&self) -> (r: &[OpOrd; 3])
        ensures
            *r == self.ord,
    {
        &self.ord
    }

    /// The mandatory-prefix bits.
    pub fn get_pp(&self) -> (r: Option<u8>)
        ensures
            r == self.pp,
    {
        self.pp
    }

    /// The opcode map.
    pub fn get_map_select(&self) -> (r: Option<u8>)
        ensures
            r == self.map_select,
    {
        self.map_select
    }

    /// VEX.W.
    pub fn get_vex_we(&self) -> (r: Option<bool>)
        ensures
            r == self.vex_we,
    {
        self.vex_we
    }

    /// The vector length, where the description fixes it.
    pub fn get_vex_vlength(&self) -> (r: Option<bool>)
        ensures
            r == self.vex_vlength,
    {
        self.vex_vlength
    }
}

} // verus!
