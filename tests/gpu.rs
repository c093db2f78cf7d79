use quickshell::gpu::{
    gpu_display, gpu_readings, gpu_report, memory_percent_of, status_of, strip_brand, GpuOptions,
    GpuReadings, GpuStatus,
};

const SMI: &str = "==============NVSMI LOG==============

Attached GPUs                             : 1
GPU 00000000:01:00.0
    Product Name                          : GeForce GTX 1070
    Product Brand                         : GeForce
    FB Memory Usage
        Total                             : 8192 MiB
        Used                              : 4096 MiB
        Free                              : 4096 MiB
    Utilization
        Gpu                               : 42 %
        Memory                            : 10 %
        Encoder                           : 3 %
        Decoder                           : 7 %
    Clocks Throttle Reasons
        Idle                              : Active
    Temperature
        GPU Current Temp                  : 65 C";

fn defaults() -> GpuOptions {
    GpuOptions {
        id: 0,
        color_error: "#dc322f".to_string(),
        color_idle: "#268bd2".to_string(),
        color_throttle: "#b58900".to_string(),
        no_util: false,
        no_mem: false,
        no_temp: false,
        perc_mem: false,
        short_temp: false,
        gpu_name: false,
        encode: false,
        decode: false,
    }
}

#[test]
fn end_to_end_default_lines() {
    let r = gpu_report(SMI, &defaults());
    assert_eq!(r.long, "GPU 0: GPU 42%|4096/8192MiB|65C");
    assert_eq!(r.short, "GPU 0: GPU 42|MEM 50");
    assert_eq!(r.color, None);
    assert_eq!(r.lines().len(), 2);
}

#[test]
fn all_segments_with_name() {
    let mut o = defaults();
    o.gpu_name = true;
    o.encode = true;
    o.decode = true;
    o.perc_mem = true;
    o.short_temp = true;
    o.id = 3;
    let r = gpu_report(SMI, &o);
    assert_eq!(r.long, "GTX 1070: GPU 42%|MEM 50%|65C|ENC 3%|VID 7%");
    assert_eq!(r.short, "GPU 3: GPU 42|MEM 50|65C");
}

#[test]
fn disabled_segments_and_trailing_separator() {
    let mut o = defaults();
    o.no_mem = true;
    o.no_temp = true;
    o.id = -1;
    let r = gpu_report(SMI, &o);
    assert_eq!(r.long, "GPU -1: GPU 42%");
    assert_eq!(r.short, "GPU -1: GPU 42");
}

#[test]
fn missing_utilization_is_error_form() {
    let text = SMI.replace("Gpu  ", "Gxu  ");
    let r = gpu_report(&text, &defaults());
    assert_eq!(r.long, "Couldn't find utilization.");
    assert_eq!(r.short, "Couldn't find utilization.");
    assert_eq!(r.color, Some("#dc322f".to_string()));
    assert_eq!(
        r.lines(),
        vec![
            "Couldn't find utilization.".to_string(),
            "Couldn't find utilization.".to_string(),
            "#dc322f".to_string()
        ]
    );
}

#[test]
fn missing_memory_temperature_name_encoder_decoder_idle() {
    let cases = [
        ("FB Memory", "XB Memory", "Couldn't find memory."),
        ("GPU Current Temp", "GPU Currant Temp", "Couldn't find temperature."),
        ("Product Name", "Product Nome", "Couldn't find GPU name."),
        ("Encoder", "Encodor", "Couldn't find encoder utilization."),
        ("Decoder", "Decodor", "Couldn't find decoder utilization."),
        ("Idle  ", "Idla  ", "Couldn't find idle status."),
    ];
    let mut o = defaults();
    o.gpu_name = true;
    o.encode = true;
    o.decode = true;
    for (from, to, msg) in cases.iter() {
        let text = SMI.replace(from, to);
        let r = gpu_report(&text, &o);
        assert_eq!(r.long, *msg);
        assert_eq!(r.short, *msg);
        assert_eq!(r.color, Some("#dc322f".to_string()));
    }
}

#[test]
fn disabled_field_is_not_required() {
    let text = SMI.replace("Gpu  ", "Gxu  ");
    let mut o = defaults();
    o.no_util = true;
    let r = gpu_report(&text, &o);
    assert_eq!(r.long, "GPU 0: 4096/8192MiB|65C");
    assert_eq!(r.short, "GPU 0: MEM 50");
}

#[test]
fn idle_color_unless_active() {
    let text = SMI.replace("Idle                              : Active", "Idle : Paused");
    let r = gpu_report(&text, &defaults());
    assert_eq!(r.color, Some("#268bd2".to_string()));
    let mut o = defaults();
    o.color_idle = String::new();
    let r = gpu_report(&text, &o);
    assert_eq!(r.color, None);
}

#[test]
fn name_minus_brand() {
    assert_eq!(strip_brand("GeForce GTX 1070", "GeForce"), "GTX 1070");
    assert_eq!(strip_brand("GeForce GTX 1070", ""), "GeForce GTX 1070");
    assert_eq!(strip_brand(" Quadro RTX ", "Tesla"), "Quadro RTX");
    assert_eq!(strip_brand("abab x ab", "ab"), "x");
}

#[test]
fn memory_percent_rounding() {
    assert_eq!(memory_percent_of(4096, 8192), 50);
    assert_eq!(memory_percent_of(1, 3), 33);
    assert_eq!(memory_percent_of(2, 3), 67);
    assert_eq!(memory_percent_of(1, 200), 0);
    assert_eq!(memory_percent_of(3, 200), 2);
    assert_eq!(memory_percent_of(5, 0), 0);
    assert_eq!(memory_percent_of(u64::MAX, 1), u64::MAX as u128 * 100);
}

#[test]
fn readings_and_display() {
    let o = defaults();
    let g = gpu_readings(SMI, &o).ok().unwrap();
    assert_eq!(g.utilization, "42");
    assert_eq!(g.memory_total, 8192);
    assert_eq!(g.memory_used, 4096);
    assert_eq!(g.temperature, "65");
    assert!(!g.idle);
    let g = GpuReadings {
        utilization: "7".to_string(),
        memory_total: 1000,
        memory_used: 333,
        temperature: "40".to_string(),
        name: String::new(),
        encoder: String::new(),
        decoder: String::new(),
        idle: true,
    };
    let r = gpu_display(&g, &o);
    assert_eq!(r.long, "GPU 0: GPU 7%|333/1000MiB|40C");
    assert_eq!(r.short, "GPU 0: GPU 7|MEM 33");
    assert_eq!(r.color, Some("#268bd2".to_string()));
    assert_eq!(status_of(true), GpuStatus::Idle);
    assert_eq!(status_of(false), GpuStatus::Active);
}
