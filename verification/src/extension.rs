//! The plugin side of the supplicant daemon: the safe view over one raw
//! invocation buffer, the marshaling glue that runs a plugin body and
//! copies its output back in place, the signature rules for the two entry
//! points a plugin must export, and the static descriptor record.

use vstd::prelude::*;

use crate::error::{Error, Result};
use crate::uuid::Uuid;

verus! {

/// The safe view over one raw plugin invocation: command code, sub-command
/// code, the input bytes the caller declared, and the owned output buffer
/// that will overwrite the input in place on return.
pub struct PluginParameters {
    cmd: u32,
    sub_cmd: u32,
    inbuf: Vec<u8>,
    outbuf: Vec<u8>,
}

impl PluginParameters {
    pub closed spec fn spec_cmd(&self) -> u32 {
        self.cmd
    }

    pub closed spec fn spec_sub_cmd(&self) -> u32 {
        self.sub_cmd
    }

    pub closed spec fn spec_inbuf(&self) -> Seq<u8> {
        self.inbuf@
    }

    pub closed spec fn spec_outbuf(&self) -> Seq<u8> {
        self.outbuf@
    }

    /// The command code of this invocation.
    pub fn cmd(&self) -> (r: u32)
        ensures
            r == self.spec_cmd(),
    {
        self.cmd
    }

    /// The sub-command code of this invocation.
    pub fn sub_cmd(&self) -> (r: u32)
        ensures
            r == self.spec_sub_cmd(),
    {
        self.sub_cmd
    }

    /// Wraps one invocation: the output buffer starts empty and grows only
    /// as the plugin body writes to it.
    pub fn new(cmd: u32, sub_cmd: u32, inbuf: Vec<u8>) -> (p: PluginParameters)
        ensures
            p.spec_cmd() == cmd,
            p.spec_sub_cmd() == sub_cmd,
            p.spec_inbuf() == inbuf@,
            p.spec_outbuf() == Seq::<u8>::empty(),
    {
        PluginParameters { cmd, sub_cmd, inbuf, outbuf: Vec::new() }
    }

    /// The input bytes of this invocation, read-only.
    pub fn get_in_slice(&self) -> (r: &[u8])
        ensures
            r@ == self.spec_inbuf(),
    {
        self.inbuf.as_slice()
    }

    /// Replaces the owned output buffer with the given bytes. An empty
    /// slice is a marshaling error — there must be something to send back —
    /// and leaves the prior output buffer untouched.
    pub fn set_buf_from_slice(&mut self, sendslice: &[u8]) -> (r: Result<()>)
        ensures
            sendslice@.len() == 0 ==> r == Result::<()>::Err(Error::MarshalError) && *final(self)
                == *old(self),
            sendslice@.len() > 0 ==> {
                &&& r == Result::<()>::Ok(())
                &&& final(self).spec_outbuf() == sendslice@
                &&& final(self).spec_cmd() == old(self).spec_cmd()
                &&& final(self).spec_sub_cmd() == old(self).spec_sub_cmd()
                &&& final(self).spec_inbuf() == old(self).spec_inbuf()
            },
    {
        if sendslice.len() == 0 {
            return Err(Error::MarshalError);
        }
        let mut replacement: Vec<u8> = Vec::new();
        let mut i: usize = 0;
        while i < sendslice.len()
            invariant
                i <= sendslice@.len(),
                replacement@ == sendslice@.subrange(0, i as int),
            decreases sendslice@.len() - i,
        {
            replacement.push(sendslice[i]);
            proof {
                assert(replacement@ =~= sendslice@.subrange(0, i + 1));
            }
            i = i + 1;
        }
        proof {
            assert(replacement@ =~= sendslice@);
        }
        self.outbuf = replacement;
        Ok(())
    }

    /// The current output buffer, as the glue reads it back.
    pub fn get_out_slice(&self) -> (r: &[u8])
        ensures
            r@ == self.spec_outbuf(),
    {
        self.outbuf.as_slice()
    }
}

/// The two entry points a plugin supplies: an initializer run once at load,
/// and the invocation body run against the parameters of each call. The
/// fixed method shapes are the compile-time contract — a body of the wrong
/// shape fails to build, never at first invocation.
pub trait PluginHandler {
    fn init(&mut self) -> Result<()>;

    fn invoke(&mut self, params: &mut PluginParameters);
}

/// Runs a plugin's initializer: successful unless the body itself
/// escalates an error.
pub fn plugin_init_entry<H: PluginHandler>(handler: &mut H) -> Result<()> {
    handler.init()
}

/// Copies a produced output back over the front of the original buffer,
/// leaving the bytes past the output as they were, and reports the output
/// length. Output larger than the buffer's capacity is refused as a
/// marshaling error — never written out of bounds or truncated — and the
/// buffer is left unchanged.
pub fn write_back_output(out: &[u8], buffer: &mut Vec<u8>) -> (r: Result<u32>)
    requires
        old(buffer)@.len() <= u32::MAX,
    ensures
        out@.len() <= old(buffer)@.len() ==> {
            &&& r == Result::<u32>::Ok(out@.len() as u32)
            &&& final(buffer)@.len() == old(buffer)@.len()
            &&& final(buffer)@.subrange(0, out@.len() as int) == out@
            &&& final(buffer)@.subrange(out@.len() as int, old(buffer)@.len() as int) == old(
                buffer,
            )@.subrange(out@.len() as int, old(buffer)@.len() as int)
        },
        out@.len() > old(buffer)@.len() ==> {
            &&& r == Result::<u32>::Err(Error::MarshalError)
            &&& final(buffer)@ == old(buffer)@
        },
{
    let out_len = out.len();
    if out_len > buffer.len() {
        return Err(Error::MarshalError);
    }
    let mut updated: Vec<u8> = Vec::new();
    let mut i: usize = 0;
    while i < out_len
        invariant
            out_len == out@.len(),
            i <= out_len,
            updated@ == out@.subrange(0, i as int),
        decreases out_len - i,
    {
        updated.push(out[i]);
        proof {
            assert(updated@ =~= out@.subrange(0, i + 1));
        }
        i = i + 1;
    }
    let buffer_len = buffer.len();
    while i < buffer_len
        invariant
            out_len == out@.len(),
            buffer_len == buffer@.len(),
            out_len <= i <= buffer_len,
            buffer@ == old(buffer)@,
            updated@.len() == i,
            updated@.subrange(0, out_len as int) == out@,
            forall|j: int| out_len <= j < i ==> updated@[j] == buffer@[j],
        decreases buffer_len - i,
    {
        updated.push(buffer[i]);
        proof {
            assert(updated@.subrange(0, out_len as int) =~= out@);
        }
        i = i + 1;
    }
    proof {
        assert(updated@.subrange(0, out_len as int) =~= out@);
        assert(updated@.subrange(out_len as int, buffer@.len() as int) =~= buffer@.subrange(
            out_len as int,
            buffer@.len() as int,
        ));
    }
    *buffer = updated;
    Ok(out_len as u32)
}

/// Runs one plugin invocation over the caller's buffer: wraps the declared
/// input prefix as parameters, runs the plugin body, then writes the body's
/// output back over the front of the buffer and reports its length.
/// Whatever the body produced, a reported length n means that exactly the
/// first n bytes were overwritten and the rest of the buffer is as the
/// caller left it; output that would not fit the buffer is refused as a
/// marshaling error with the buffer unchanged.
pub fn plugin_invoke_entry<H: PluginHandler>(
    handler: &mut H,
    cmd: u32,
    sub_cmd: u32,
    buffer: &mut Vec<u8>,
    in_len: u32,
) -> (r: Result<u32>)
    requires
        in_len as int <= old(buffer)@.len(),
        old(buffer)@.len() <= u32::MAX,
    ensures
        match r {
            Ok(n) => n as int <= old(buffer)@.len() && final(buffer)@.len() == old(buffer)@.len()
                && final(buffer)@.subrange(n as int, old(buffer)@.len() as int) == old(
                buffer,
            )@.subrange(n as int, old(buffer)@.len() as int),
            Err(e) => e == Error::MarshalError && final(buffer)@ == old(buffer)@,
        },
{
    let mut input: Vec<u8> = Vec::new();
    let mut i: usize = 0;
    let in_len_us = in_len as usize;
    while i < in_len_us
        invariant
            in_len_us <= buffer@.len(),
            i <= in_len_us,
            input@ == buffer@.subrange(0, i as int),
        decreases in_len_us - i,
    {
        input.push(buffer[i]);
        proof {
            assert(input@ =~= buffer@.subrange(0, i + 1));
        }
        i = i + 1;
    }
    let mut params = PluginParameters::new(cmd, sub_cmd, input);
    handler.invoke(&mut params);
    write_back_output(params.get_out_slice(), buffer)
}

/// The shape of a user-declared entry-point function, as the build step
/// sees it before generating any glue.
#[derive(Clone, Copy, Debug, PartialEq, Eq, Structural)]
pub struct FnSignatureShape {
    pub is_const: bool,
    pub is_default_visibility: bool,
    pub has_explicit_abi: bool,
    pub n_inputs: u64,
    pub has_where_clause: bool,
    pub is_variadic: bool,
}

/// The rule for a plugin initializer: a plain function of no arguments —
/// not const, not public, no explicit ABI, no where clause, not variadic.
pub open spec fn spec_valid_init_shape(s: FnSignatureShape) -> bool {
    &&& !s.is_const
    &&& s.is_default_visibility
    &&& !s.has_explicit_abi
    &&& s.n_inputs == 0
    &&& !s.has_where_clause
    &&& !s.is_variadic
}

/// The rule for a plugin invocation body: the same plain shape with
/// exactly one argument, the parameter handle.
pub open spec fn spec_valid_invoke_shape(s: FnSignatureShape) -> bool {
    &&& !s.is_const
    &&& s.is_default_visibility
    &&& !s.has_explicit_abi
    &&& s.n_inputs == 1
    &&& !s.has_where_clause
    &&& !s.is_variadic
}

/// Decides whether a declared initializer may have glue generated for it;
/// a shape with any argument, among the other violations, is refused, so
/// the build fails before the plugin can ever be invoked.
pub fn check_init_shape(s: &FnSignatureShape) -> (r: bool)
    ensures
        r == spec_valid_init_shape(*s),
{
    !s.is_const && s.is_default_visibility && !s.has_explicit_abi && s.n_inputs == 0
        && !s.has_where_clause && !s.is_variadic
}

/// Decides whether a declared invocation body may have glue generated for
/// it.
pub fn check_invoke_shape(s: &FnSignatureShape) -> (r: bool)
    ensures
        r == spec_valid_invoke_shape(*s),
{
    !s.is_const && s.is_default_visibility && !s.has_explicit_abi && s.n_inputs == 1
        && !s.has_where_clause && !s.is_variadic
}

/// The static registration record a supplicant host discovers by symbol
/// lookup: a NUL-terminated name and the plugin's identifier. The entry
/// points themselves live at the FFI boundary beside the exported record.
pub struct PluginDescriptor {
    name: Vec<u8>,
    uuid: Uuid,
}

impl PluginDescriptor {
    pub closed spec fn spec_name(&self) -> Seq<u8> {
        self.name@
    }

    pub closed spec fn spec_uuid(&self) -> Uuid {
        self.uuid
    }

    /// A well-formed record carries a non-empty name whose one NUL byte is
    /// the terminator.
    pub open spec fn wf(&self) -> bool {
        &&& self.spec_name().len() >= 1
        &&& self.spec_name().last() == 0
        &&& forall|i: int| 0 <= i < self.spec_name().len() - 1 ==> self.spec_name()[i] != 0
    }

    /// Builds the record from the plain name text, appending the NUL
    /// terminator the host's symbol table expects.
    pub fn new(name: &[u8], uuid: Uuid) -> (r: PluginDescriptor)
        requires
            forall|i: int| 0 <= i < name@.len() ==> name@[i] != 0,
        ensures
            r.wf(),
            r.spec_name() == name@.push(0u8),
            r.spec_uuid() == uuid,
    {
        let mut stored: Vec<u8> = Vec::new();
        let mut i: usize = 0;
        while i < name.len()
            invariant
                i <= name@.len(),
                stored@ == name@.subrange(0, i as int),
            decreases name@.len() - i,
        {
            stored.push(name[i]);
            proof {
                assert(stored@ =~= name@.subrange(0, i + 1));
            }
            i = i + 1;
        }
        stored.push(0u8);
        proof {
            assert(stored@ =~= name@.push(0u8));
        }
        PluginDescriptor { name: stored, uuid }
    }

    /// The NUL-terminated name bytes of this record.
    pub fn name_with_nul(&self) -> (r: &[u8])
        ensures
            r@ == self.spec_name(),
    {
        self.name.as_slice()
    }

    /// The identifier this record registers.
    pub fn uuid(&self) -> (r: Uuid)
        ensures
            r == self.spec_uuid(),
    {
        self.uuid
    }
}

} // verus!
