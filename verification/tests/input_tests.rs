use imgui::context::ImGui;
use imgui::flags::{
    ImGuiInputTextFlags, ImGuiInputTextFlags_AllowTabInput, ImGuiInputTextFlags_AlwaysInsertMode,
    ImGuiInputTextFlags_AutoSelectAll, ImGuiInputTextFlags_CallbackAlways,
    ImGuiInputTextFlags_CallbackCharFilter, ImGuiInputTextFlags_CallbackCompletion,
    ImGuiInputTextFlags_CallbackHistory, ImGuiInputTextFlags_CharsDecimal,
    ImGuiInputTextFlags_CharsHexadecimal, ImGuiInputTextFlags_CharsNoBlank,
    ImGuiInputTextFlags_CharsUppercase, ImGuiInputTextFlags_EnterReturnsTrue,
    ImGuiInputTextFlags_NoHorizontalScroll, ImGuiInputTextFlags_Password,
};
use imgui::input::{InputFloatOptions, InputIntOptions, InputTextOptions};

fn text_bits(options: &InputTextOptions) -> i32 {
    let mut ctx = ImGui::init();
    let ui = ctx.frame((1, 1), (1, 1), 0);
    let mut buf = String::from("abc");
    let call = options.input_text(&ui, "t", buf.as_mut_str());
    call.flags.bits()
}

fn int_parts(options: &InputIntOptions) -> (i32, i32, i32) {
    let mut ctx = ImGui::init();
    let ui = ctx.frame((1, 1), (1, 1), 0);
    let mut value = 0;
    let call = options.input_int(&ui, "i", &mut value);
    (call.step, call.step_fast, call.flags.bits())
}

fn float_parts(options: &InputFloatOptions) -> (f32, f32, i32, i32) {
    let mut ctx = ImGui::init();
    let ui = ctx.frame((1, 1), (1, 1), 0);
    let mut value = 0;
    let call = options.input_float(&ui, "f", &mut value);
    (
        f32::from_bits(call.step),
        f32::from_bits(call.step_fast),
        call.decimal_precision,
        call.flags.bits(),
    )
}

#[test]
fn input_text_options_start_empty() {
    assert_eq!(text_bits(&InputTextOptions::new()), 0);
}

#[test]
fn input_int_options_defaults() {
    assert_eq!(int_parts(&InputIntOptions::new()), (1, 100, 0));
}

#[test]
fn input_float_options_defaults() {
    assert_eq!(float_parts(&InputFloatOptions::new()), (0.0, 0.0, -1, 0));
}

#[test]
fn input_text_call_carries_label_buffer_and_flags() {
    let mut ctx = ImGui::init();
    let ui = ctx.frame((1, 1), (1, 1), 0);
    let mut options = InputTextOptions::new();
    options.chars_uppercase(true);
    let mut buf = String::from("abc");
    {
        let call = options.input_text(&ui, "name", buf.as_mut_str());
        assert_eq!(call.label, "name");
        assert_eq!(&*call.buf, "abc");
        assert_eq!(call.flags.bits(), ImGuiInputTextFlags_CharsUppercase);
        call.buf.make_ascii_uppercase();
    }
    assert_eq!(buf, "ABC");
}

#[test]
fn input_int_call_carries_label_value_and_options() {
    let mut ctx = ImGui::init();
    let ui = ctx.frame((1, 1), (1, 1), 0);
    let mut options = InputIntOptions::new();
    options.step(2).step_fast(20).chars_decimal(true);
    let mut value = 41;
    {
        let call = options.input_int(&ui, "n", &mut value);
        assert_eq!(call.label, "n");
        assert_eq!(*call.value, 41);
        assert_eq!((call.step, call.step_fast), (2, 20));
        assert_eq!(call.flags.bits(), ImGuiInputTextFlags_CharsDecimal);
        *call.value += 1;
    }
    assert_eq!(value, 42);
}

#[test]
fn input_int_n_calls_carry_label_values_and_flags() {
    let mut ctx = ImGui::init();
    let ui = ctx.frame((1, 1), (1, 1), 0);
    let mut options = InputIntOptions::new();
    options.step(9).auto_select_all(true);
    let mut v2 = [1, 2];
    let mut v3 = [1, 2, 3];
    let mut v4 = [1, 2, 3, 4];
    {
        let call = options.input_int2(&ui, "a", &mut v2);
        assert_eq!((call.label, *call.value), ("a", [1, 2]));
        assert_eq!(call.flags.bits(), ImGuiInputTextFlags_AutoSelectAll);
        call.value[1] = 20;
    }
    {
        let call = options.input_int3(&ui, "b", &mut v3);
        assert_eq!((call.label, *call.value), ("b", [1, 2, 3]));
        assert_eq!(call.flags.bits(), ImGuiInputTextFlags_AutoSelectAll);
        call.value[2] = 30;
    }
    {
        let call = options.input_int4(&ui, "c", &mut v4);
        assert_eq!((call.label, *call.value), ("c", [1, 2, 3, 4]));
        assert_eq!(call.flags.bits(), ImGuiInputTextFlags_AutoSelectAll);
        call.value[3] = 40;
    }
    assert_eq!((v2, v3, v4), ([1, 20], [1, 2, 30], [1, 2, 3, 40]));
}

#[test]
fn input_float_calls_carry_label_values_and_options() {
    let mut ctx = ImGui::init();
    let ui = ctx.frame((1, 1), (1, 1), 0);
    let mut options = InputFloatOptions::new();
    options
        .step(0.5f32.to_bits())
        .step_fast(5.0f32.to_bits())
        .decimal_precision(3)
        .enter_returns_true(true);
    let mut v = 1.5f32.to_bits();
    let mut v2 = [1.0f32.to_bits(); 2];
    let mut v3 = [2.0f32.to_bits(); 3];
    let mut v4 = [3.0f32.to_bits(); 4];
    {
        let call = options.input_float(&ui, "f", &mut v);
        assert_eq!(call.label, "f");
        assert_eq!(f32::from_bits(*call.value), 1.5);
        assert_eq!((f32::from_bits(call.step), f32::from_bits(call.step_fast)), (0.5, 5.0));
        assert_eq!(call.decimal_precision, 3);
        assert_eq!(call.flags.bits(), ImGuiInputTextFlags_EnterReturnsTrue);
        *call.value = 2.5f32.to_bits();
    }
    assert_eq!(f32::from_bits(v), 2.5);
    {
        let call = options.input_float2(&ui, "a", &mut v2);
        assert_eq!((call.label, call.value.len(), call.decimal_precision), ("a", 2, 3));
        assert_eq!(call.flags.bits(), ImGuiInputTextFlags_EnterReturnsTrue);
        call.value[0] = 9.0f32.to_bits();
    }
    {
        let call = options.input_float3(&ui, "b", &mut v3);
        assert_eq!((call.label, call.value.len(), call.decimal_precision), ("b", 3, 3));
        assert_eq!(call.flags.bits(), ImGuiInputTextFlags_EnterReturnsTrue);
        assert_eq!(f32::from_bits(call.value[2]), 2.0);
    }
    {
        let call = options.input_float4(&ui, "c", &mut v4);
        assert_eq!((call.label, call.value.len(), call.decimal_precision), ("c", 4, 3));
        assert_eq!(call.flags.bits(), ImGuiInputTextFlags_EnterReturnsTrue);
        assert_eq!(f32::from_bits(call.value[3]), 3.0);
    }
    assert_eq!(f32::from_bits(v2[0]), 9.0);
}

#[test]
fn input_text_options_each_switch() {
    let all: [(fn(&mut InputTextOptions, bool) -> &mut InputTextOptions, i32); 13] = [
        (InputTextOptions::chars_decimal, ImGuiInputTextFlags_CharsDecimal),
        (InputTextOptions::chars_hexadecimal, ImGuiInputTextFlags_CharsHexadecimal),
        (InputTextOptions::chars_uppercase, ImGuiInputTextFlags_CharsUppercase),
        (InputTextOptions::chars_noblank, ImGuiInputTextFlags_CharsNoBlank),
        (InputTextOptions::auto_select_all, ImGuiInputTextFlags_AutoSelectAll),
        (InputTextOptions::enter_returns_true, ImGuiInputTextFlags_EnterReturnsTrue),
        (InputTextOptions::callback_completion, ImGuiInputTextFlags_CallbackCompletion),
        (InputTextOptions::callback_history, ImGuiInputTextFlags_CallbackHistory),
        (InputTextOptions::callback_always, ImGuiInputTextFlags_CallbackAlways),
        (InputTextOptions::callback_char_filter, ImGuiInputTextFlags_CallbackCharFilter),
        (InputTextOptions::allow_tab_input, ImGuiInputTextFlags_AllowTabInput),
        (InputTextOptions::no_horizontal_scroll, ImGuiInputTextFlags_NoHorizontalScroll),
        (InputTextOptions::always_insert_mode, ImGuiInputTextFlags_AlwaysInsertMode),
    ];
    for (switch, flag) in all.iter() {
        let mut o = InputTextOptions::new();
        assert_eq!(text_bits(switch(&mut o, true)), *flag);
        assert_eq!(text_bits(switch(&mut o, false)), 0);
    }
}

#[test]
fn input_text_options_chain_and_undo() {
    let mut o = InputTextOptions::new();
    o.chars_decimal(true).auto_select_all(true).allow_tab_input(true).chars_decimal(false);
    assert_eq!(
        text_bits(&o),
        ImGuiInputTextFlags_AutoSelectAll | ImGuiInputTextFlags_AllowTabInput
    );
    o.auto_select_all(false).allow_tab_input(false);
    assert_eq!(text_bits(&o), 0);
    o.chars_uppercase(false);
    assert_eq!(text_bits(&o), 0);
}

#[test]
fn input_text_options_flags_replaces_the_set() {
    let mut o = InputTextOptions::new();
    o.chars_decimal(true);
    let f = ImGuiInputTextFlags::from_bits_truncate(ImGuiInputTextFlags_Password);
    o.flags(f);
    assert_eq!(text_bits(&o), ImGuiInputTextFlags_Password);
}

#[test]
fn input_int_options_steps_and_switches() {
    let mut o = InputIntOptions::new();
    o.step(5).step_fast(50).chars_hexadecimal(true).enter_returns_true(true);
    assert_eq!(
        int_parts(&o),
        (5, 50, ImGuiInputTextFlags_CharsHexadecimal | ImGuiInputTextFlags_EnterReturnsTrue)
    );
    o.chars_hexadecimal(false);
    assert_eq!(int_parts(&o), (5, 50, ImGuiInputTextFlags_EnterReturnsTrue));
    o.flags(ImGuiInputTextFlags::empty());
    assert_eq!(int_parts(&o), (5, 50, 0));
    o.step(-1);
    assert_eq!(int_parts(&o), (-1, 50, 0));
    o.step_fast(7);
    assert_eq!(int_parts(&o), (-1, 7, 0));
}

#[test]
fn input_int_options_each_switch() {
    let all: [(fn(&mut InputIntOptions, bool) -> &mut InputIntOptions, i32); 13] = [
        (InputIntOptions::chars_decimal, ImGuiInputTextFlags_CharsDecimal),
        (InputIntOptions::chars_hexadecimal, ImGuiInputTextFlags_CharsHexadecimal),
        (InputIntOptions::chars_uppercase, ImGuiInputTextFlags_CharsUppercase),
        (InputIntOptions::chars_noblank, ImGuiInputTextFlags_CharsNoBlank),
        (InputIntOptions::auto_select_all, ImGuiInputTextFlags_AutoSelectAll),
        (InputIntOptions::enter_returns_true, ImGuiInputTextFlags_EnterReturnsTrue),
        (InputIntOptions::callback_completion, ImGuiInputTextFlags_CallbackCompletion),
        (InputIntOptions::callback_history, ImGuiInputTextFlags_CallbackHistory),
        (InputIntOptions::callback_always, ImGuiInputTextFlags_CallbackAlways),
        (InputIntOptions::callback_char_filter, ImGuiInputTextFlags_CallbackCharFilter),
        (InputIntOptions::allow_tab_input, ImGuiInputTextFlags_AllowTabInput),
        (InputIntOptions::no_horizontal_scroll, ImGuiInputTextFlags_NoHorizontalScroll),
        (InputIntOptions::always_insert_mode, ImGuiInputTextFlags_AlwaysInsertMode),
    ];
    for (switch, flag) in all.iter() {
        let mut o = InputIntOptions::new();
        assert_eq!(int_parts(switch(&mut o, true)), (1, 100, *flag));
        assert_eq!(int_parts(switch(&mut o, false)), (1, 100, 0));
    }
}

#[test]
fn input_float_options_steps_precision_and_switches() {
    let mut o = InputFloatOptions::new();
    o.step(0.5f32.to_bits()).step_fast(5.0f32.to_bits()).decimal_precision(3).chars_decimal(true);
    assert_eq!(float_parts(&o), (0.5, 5.0, 3, ImGuiInputTextFlags_CharsDecimal));
    o.flags(ImGuiInputTextFlags::empty());
    assert_eq!(float_parts(&o), (0.5, 5.0, 3, 0));
    o.decimal_precision(0);
    assert_eq!(float_parts(&o), (0.5, 5.0, 0, 0));
}

#[test]
fn input_float_options_each_switch() {
    let all: [(fn(&mut InputFloatOptions, bool) -> &mut InputFloatOptions, i32); 13] = [
        (InputFloatOptions::chars_decimal, ImGuiInputTextFlags_CharsDecimal),
        (InputFloatOptions::chars_hexadecimal, ImGuiInputTextFlags_CharsHexadecimal),
        (InputFloatOptions::chars_uppercase, ImGuiInputTextFlags_CharsUppercase),
        (InputFloatOptions::chars_noblank, ImGuiInputTextFlags_CharsNoBlank),
        (InputFloatOptions::auto_select_all, ImGuiInputTextFlags_AutoSelectAll),
        (InputFloatOptions::enter_returns_true, ImGuiInputTextFlags_EnterReturnsTrue),
        (InputFloatOptions::callback_completion, ImGuiInputTextFlags_CallbackCompletion),
        (InputFloatOptions::callback_history, ImGuiInputTextFlags_CallbackHistory),
        (InputFloatOptions::callback_always, ImGuiInputTextFlags_CallbackAlways),
        (InputFloatOptions::callback_char_filter, ImGuiInputTextFlags_CallbackCharFilter),
        (InputFloatOptions::allow_tab_input, ImGuiInputTextFlags_AllowTabInput),
        (InputFloatOptions::no_horizontal_scroll, ImGuiInputTextFlags_NoHorizontalScroll),
        (InputFloatOptions::always_insert_mode, ImGuiInputTextFlags_AlwaysInsertMode),
    ];
    for (switch, flag) in all.iter() {
        let mut o = InputFloatOptions::new();
        assert_eq!(float_parts(switch(&mut o, true)), (0.0, 0.0, -1, *flag));
        assert_eq!(float_parts(switch(&mut o, false)), (0.0, 0.0, -1, 0));
    }
}
