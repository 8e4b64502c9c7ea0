use optee_teec::extension::{check_init_shape, check_invoke_shape, plugin_invoke_entry};
use optee_teec::{Error, FnSignatureShape, PluginDescriptor, PluginHandler, PluginParameters, Uuid};

struct NineBytesPlugin;

impl PluginHandler for NineBytesPlugin {
    fn init(&mut self) -> Result<(), Error> {
        Ok(())
    }

    fn invoke(&mut self, params: &mut PluginParameters) {
        assert_eq!(params.cmd(), 1);
        assert_eq!(params.sub_cmd(), 2);
        assert_eq!(params.get_in_slice(), &[0x01, 0x02, 0x03]);
        params.set_buf_from_slice(&[0x40; 9]).unwrap();
    }
}

struct SilentPlugin;

impl PluginHandler for SilentPlugin {
    fn init(&mut self) -> Result<(), Error> {
        Ok(())
    }

    fn invoke(&mut self, _params: &mut PluginParameters) {}
}

struct BrokenPlugin;

impl PluginHandler for BrokenPlugin {
    fn init(&mut self) -> Result<(), Error> {
        Err(Error::MarshalError)
    }

    fn invoke(&mut self, _params: &mut PluginParameters) {}
}

#[test]
fn init_glue_passes_the_body_outcome_through() {
    assert_eq!(optee_teec::plugin_init_entry(&mut SilentPlugin), Ok(()));
    assert_eq!(optee_teec::plugin_init_entry(&mut BrokenPlugin), Err(Error::MarshalError));
}

#[test]
fn invoke_glue_overwrites_the_buffer_in_place() {
    let mut handler = NineBytesPlugin;
    let mut buffer = vec![0x01, 0x02, 0x03, 0, 0, 0, 0, 0, 0, 0xEE];
    let out_len = plugin_invoke_entry(&mut handler, 1, 2, &mut buffer, 3).unwrap();
    assert_eq!(out_len, 9);
    assert_eq!(&buffer[..9], &[0x40; 9]);
    // past the reported output length the buffer is as the caller left it
    assert_eq!(buffer[9], 0xEE);
}

#[test]
fn invoke_glue_refuses_output_larger_than_the_buffer() {
    let mut handler = NineBytesPlugin;
    let mut buffer = vec![0x01, 0x02, 0x03];
    let r = plugin_invoke_entry(&mut handler, 1, 2, &mut buffer, 3);
    assert_eq!(r, Err(Error::MarshalError));
    assert_eq!(buffer, vec![0x01, 0x02, 0x03]);
}

#[test]
fn invoke_glue_reports_zero_when_nothing_was_produced() {
    let mut handler = SilentPlugin;
    let mut buffer = vec![0x0A, 0x0B, 0x0C, 0x0D];
    let out_len = plugin_invoke_entry(&mut handler, 3, 4, &mut buffer, 2).unwrap();
    assert_eq!(out_len, 0);
    assert_eq!(buffer, vec![0x0A, 0x0B, 0x0C, 0x0D]);
}

#[test]
fn set_output_from_empty_slice_fails_and_keeps_prior_output() {
    let mut params = PluginParameters::new(7, 9, vec![1, 2, 3]);
    params.set_buf_from_slice(&[5, 6]).unwrap();
    let r = params.set_buf_from_slice(&[]);
    assert_eq!(r, Err(Error::MarshalError));
    assert_eq!(params.get_out_slice(), &[5, 6]);
    assert_eq!(params.cmd(), 7);
    assert_eq!(params.sub_cmd(), 9);
    assert_eq!(params.get_in_slice(), &[1, 2, 3]);
}

#[test]
fn init_shape_with_an_argument_is_refused_before_generation() {
    let zero_args = FnSignatureShape {
        is_const: false,
        is_default_visibility: true,
        has_explicit_abi: false,
        n_inputs: 0,
        has_where_clause: false,
        is_variadic: false,
    };
    assert!(check_init_shape(&zero_args));
    let one_arg = FnSignatureShape { n_inputs: 1, ..zero_args };
    assert!(!check_init_shape(&one_arg));
    let public = FnSignatureShape { is_default_visibility: false, ..zero_args };
    assert!(!check_init_shape(&public));
    let constant = FnSignatureShape { is_const: true, ..zero_args };
    assert!(!check_init_shape(&constant));
}

#[test]
fn invoke_shape_takes_exactly_one_argument() {
    let one_arg = FnSignatureShape {
        is_const: false,
        is_default_visibility: true,
        has_explicit_abi: false,
        n_inputs: 1,
        has_where_clause: false,
        is_variadic: false,
    };
    assert!(check_invoke_shape(&one_arg));
    assert!(!check_invoke_shape(&FnSignatureShape { n_inputs: 0, ..one_arg }));
    assert!(!check_invoke_shape(&FnSignatureShape { n_inputs: 2, ..one_arg }));
    assert!(!check_invoke_shape(&FnSignatureShape { has_where_clause: true, ..one_arg }));
    assert!(!check_invoke_shape(&FnSignatureShape { is_variadic: true, ..one_arg }));
    assert!(!check_invoke_shape(&FnSignatureShape { has_explicit_abi: true, ..one_arg }));
}

#[test]
fn descriptor_name_is_nul_terminated() {
    let uuid = Uuid::parse_str("8abcf200-2450-11e4-abe2-0002a5d5c51b").unwrap();
    let descriptor = PluginDescriptor::new(b"demo_plugin", uuid);
    assert_eq!(descriptor.name_with_nul(), b"demo_plugin\0");
    assert_eq!(descriptor.uuid(), uuid);
}
