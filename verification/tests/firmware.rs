use airfrog::device::{Device, HEAP_SIZE};
use airfrog::firmware::onerom::{
    supports_mcu, OneRomFirmware, OneRomFlash, OneRomInfo, OneRomPins, OneRomRam,
    OneRomRom, OneRomSet,
};
use airfrog::firmware::onerom_lab::{
    is_read_rom, JsonToHtmler, LabFlash, LabRam, OneRomLab, OneRomLabFirmware, OneRomLabHandlerInfo,
};
use airfrog::firmware::{
    firmware_response, read_request, read_result, rtt_start, Action, Command, Error, FirmwareResult,
    FirmwareType, Fw, Response, State,
};
use airfrog::http::{Method, StatusCode};
use airfrog::rtt::Control as RttControl;

fn rom(name: Option<&str>) -> OneRomRom {
    OneRomRom {
        filename: name.map(|s| s.to_string()),
        rom_type: "2364".to_string(),
        cs1_state: "ActiveLow".to_string(),
        cs2_state: "NotUsed".to_string(),
        cs3_state: "NotUsed".to_string(),
    }
}

fn flash() -> OneRomFlash {
    OneRomFlash {
        major_version: 0,
        minor_version: 5,
        patch_version: 1,
        build_number: 7,
        build_date: Some("Jan 1 2025".to_string()),
        commit: *b"abc123\0\0",
        hw_rev: Some("24-D".to_string()),
        stm_line: "F411".to_string(),
        stm_storage: "E".to_string(),
        freq: 100,
        overclock: false,
        swd_enabled: true,
        preload_image_to_ram: true,
        bootloader_capable: false,
        status_led_enabled: true,
        boot_logging_enabled: true,
        mco_enabled: false,
        rom_set_count: 2,
        boot_config: [0xAB, 0x01, 0x00, 0xFF],
        rom_sets: vec![
            OneRomSet {
                size: 16384,
                rom_count: 1,
                serve: "AddrOnCs".to_string(),
                serve_any_cs: false,
                multi_rom_cs1_state: "NotUsed".to_string(),
                roms: vec![rom(Some("kernal.bin"))],
            },
            OneRomSet {
                size: 65536,
                rom_count: 2,
                serve: "AddrOnAnyCs".to_string(),
                serve_any_cs: true,
                multi_rom_cs1_state: "ActiveLow".to_string(),
                roms: vec![rom(Some("basic.bin")), rom(None)],
            },
        ],
        pins: Some(OneRomPins {
            rom_pins: 24,
            data_port: "A".to_string(),
            data: vec![0, 1, 255],
            addr_port: "C".to_string(),
            addr: vec![5],
            cs_port: "B".to_string(),
            cs1_2364: 3,
            cs1_2332: 255,
            cs2_2332: 255,
            cs1_2316: 255,
            cs2_2316: 255,
            cs3_2316: 255,
            ce_23128: 255,
            oe_23128: 255,
            x1: 255,
            x2: 255,
            x_jumper_pull: 1,
            sel_port: "B".to_string(),
            sel: [0, 1, 255, 255, 255, 255, 255],
            sel_jumper_pull: 0,
            status_port: "None".to_string(),
            status: 255,
        }),
        parse_errors: vec!["bad <thing>".to_string()],
        rtt_ptr: Some(0x2000_0400),
    }
}

fn ram(index: u8) -> OneRomRam {
    OneRomRam {
        image_sel: 3,
        rom_set_index: index,
        count_rom_access: 1,
        last_parsed_access_count: 1234,
        account_count_address: 0x2000_0010,
        rom_table_address: 0x2000_1000,
        rom_table_size: 65536,
    }
}

#[test]
fn firmware_task_decisions() {
    let mut fw = Fw::new();
    assert!(fw.is_stopped());
    assert!(matches!(fw.handle_command(&Command::GetStatus), Action::Reply(Response::Status(State::Stopped))));
    assert!(matches!(fw.handle_command(&Command::GetFullHtml), Action::Reply(Response::Error(Error::Stopped))));
    let stm = airfrog::mcu::Mcu::Unknown(airfrog::arm::dp::IdCode::new(0x2BA0_1477));
    fw.start(stm);
    assert!(fw._is_started());
    assert!(matches!(fw.handle_command(&Command::Refresh), Action::Detect));
    assert!(matches!(fw.handle_command(&Command::GetFirmware), Action::Reply(Response::Firmware(FirmwareType::Unknown))));
    assert!(matches!(fw.handle_command(&Command::GetButtons), Action::Reply(Response::Error(Error::UnknownFirmware))));
    assert_eq!(fw.set_firmware(Some(FirmwareType::OneRom)), FirmwareType::OneRom);
    assert!(matches!(fw.handle_command(&Command::GetSummaryKvp), Action::AskFirmware));
    assert!(matches!(fw.handle_command(&Command::GetFirmware), Action::Reply(Response::Firmware(FirmwareType::OneRom))));
    assert_eq!(fw.stop(), RttControl::Stop);
    assert!(fw.firmware.is_none());
    assert_eq!(rtt_start(Some(0x2000_0000)), Some(RttControl::Start { rtt_cb_loc: 0x2000_0000 }));
    assert_eq!(rtt_start(None), None);
    assert_eq!(FirmwareType::OneRomLab.to_string(), "One ROM Lab");
}

#[test]
fn firmware_results_become_responses() {
    let r = firmware_response(FirmwareResult::Html(Ok((StatusCode::Success, Some("x".to_string())))));
    assert!(matches!(r, Response::Html { status: StatusCode::Success, body: Some(ref b) } if b == "x"));
    let r = firmware_response(FirmwareResult::Buttons(Err(Error::NotImplemented)));
    assert!(matches!(r, Response::Error(Error::NotImplemented)));
}

#[test]
fn firmware_reads() {
    assert_eq!(read_request(0x0800_0000, 16), Ok(("0x08000000".to_string(), 4)));
    assert_eq!(read_request(0x0800_0001, 16), Err(Error::Alignment));
    assert_eq!(read_request(0x0800_0000, 6), Err(Error::Alignment));
    let mut buf = [0u8; 4];
    assert_eq!(read_result(&mut buf, false, Some(&[1, 2, 3, 4])), Ok(()));
    assert_eq!(buf, [1, 2, 3, 4]);
    assert_eq!(read_result(&mut buf, true, Some(&[9, 9, 9, 9])), Err(Error::Target));
    assert_eq!(read_result(&mut buf, false, None), Err(Error::Target));
    assert_eq!(buf, [1, 2, 3, 4]);
}

#[test]
fn one_rom_current_rom() {
    let fw = OneRomFirmware { info: OneRomInfo { flash: Some(flash()), ram: Some(ram(1)) } };
    let f = flash();
    assert_eq!(fw.get_current_rom_info(&f, &ram(1)), "1 - <strong>basic.bin/<unnamed></strong>");
    assert_eq!(fw.get_current_rom_info(&f, &ram(0)), "0 - <strong>kernal.bin</strong>");
    assert_eq!(fw.get_current_rom_info(&f, &ram(9)), "9 - unknown image");
    assert_eq!(fw.rtt_cb_address(), Some(0x2000_0400));
}

#[test]
fn one_rom_summary() {
    let fw = OneRomFirmware { info: OneRomInfo { flash: Some(flash()), ram: Some(ram(0)) } };
    let kvp = fw.get_summary_kvp().unwrap();
    let expect = vec![
        ("Version", "v0.5.1"),
        ("Hardware Revision", "24-D"),
        ("Emulating", "24 pin ROM"),
        ("Serving ROM/set", "0 - <strong>kernal.bin</strong>"),
        ("Bytes served", "1234"),
    ];
    let got: Vec<(&str, &str)> = kvp.iter().map(|(k, v)| (k.as_str(), v.as_str())).collect();
    assert_eq!(got, expect);
    let fw = OneRomFirmware { info: OneRomInfo { flash: None, ram: None } };
    let kvp = fw.get_summary_kvp().unwrap();
    assert_eq!(kvp[0].1, "Unknown");
    assert_eq!(kvp[3].1, "unavailable");
    assert_eq!(kvp[4].1, "unavailable");
    assert_eq!(fw.get_buttons(), Err(Error::NotImplemented));
}

#[test]
fn one_rom_full_html() {
    let fw = OneRomFirmware { info: OneRomInfo { flash: Some(flash()), ram: Some(ram(0)) } };
    let (status, html) = fw.get_full_html().unwrap();
    let html = html.unwrap();
    assert_eq!(status, StatusCode::Success);
    assert!(html.starts_with("<div class=\"card\"><h2>One ROM</h2><h3>Core Firmware Properties</h3><p><strong>Version:</strong> 0.5.1 (build 7)</p><p><strong>Build Date:</strong> Jan 1 2025</p><p><strong>Git commit:</strong> abc123</p>"));
    assert!(html.contains("<p><strong>Frequency:</strong> 100 MHz (Overclocking: false)</p>"));
    assert!(html.contains("<p><strong>Access count address:</strong> 0x20000010</p>"));
    assert!(html.contains("<p><strong>RTT Control Block:</strong> 0x20000400</p>"));
    assert!(html.contains("<p><strong>Boot config:</strong> 0xAB0100FF</p>"));
    assert!(html.contains("<p><strong>Total ROMs:</strong> 3</p>"));
    assert!(html.contains("<hr><div class=\"card\"><h3>ROM Set: 1</h3><p><strong>Set type:</strong> Multi-ROM socket</p>"));
    assert!(html.contains("<h4>ROM: 1</h4><p><strong>Name:</strong> <not present></p>"));
    assert!(html.contains("<h3>Data pin mapping:</h3><p>D0: PA:0</p><p>D1: PA:1</p></div>"));
    assert!(html.contains("<h3>Chip select pins:</h3><p>2364 CS1: PB:3</p><p>X1/2 jumper pull: 1</p></div>"));
    assert!(html.contains("<p>SEL0: PB:0</p><p>SEL1: PB:1</p><p>Select jumper pull: 0</p>"));
    assert!(html.contains("<h3>Status LED pin:</h3><p>Pin: None</p></div>"));
    assert!(html.ends_with("<h2>Parse Errors</h2><ul><li>bad <thing></li></ul>"));
    let fw = OneRomFirmware { info: OneRomInfo { flash: None, ram: None } };
    let (_, html) = fw.get_full_html().unwrap();
    assert_eq!(html.unwrap(), "<div class=\"card\"><h2>One ROM</h2><h3>Core Firmware Properties</h3><p><strong>Error:</strong> No information available from flash</p><h3>Runtime Properties</h3><p><strong>Error:</strong> No information available from RAM</p></div>");
}

#[test]
fn one_rom_mcus() {
    let unknown = airfrog::mcu::Mcu::Unknown(airfrog::arm::dp::IdCode::new(0));
    assert!(!supports_mcu(&unknown));
}

fn lab() -> OneRomLab {
    OneRomLab {
        flash: Some(LabFlash {
            major_version: "1".to_string(),
            minor_version: "2".to_string(),
            patch_version: "3".to_string(),
            build_number: "4".to_string(),
            mcu: "F411RE".to_string(),
            hw_rev: "A<1>".to_string(),
            features: "usb".to_string(),
            rtt_ptr: 0x2000_0100,
        }),
        ram: Some(LabRam {
            rom_data_ptr: 0x2000_8000,
            rpc_cmd_channel_ptr: 0x2000_9000,
            rpc_rsp_channel_ptr: 0x2000_9400,
            rpc_cmd_channel_size: 256,
            rpc_rsp_channel_size: 1024,
        }),
    }
}

#[test]
fn one_rom_lab() {
    let fw = OneRomLabFirmware { info: lab() };
    assert_eq!(fw.rtt_cb_address(), Some(0x2000_0100));
    let kvp = fw.get_summary_kvp().unwrap();
    assert_eq!(kvp[1], ("Version".to_string(), "v1.2.3".to_string()));
    assert_eq!(kvp[4], ("ROM Data".to_string(), "0x20008000".to_string()));
    let (_, html) = fw.get_full_html().unwrap();
    let html = html.unwrap();
    assert!(html.starts_with("<div class=\"card\"><h2>One ROM Lab</h2><table class=\"device-info\"><tr><td class=\"label-col\"><strong>Firmware:</strong></td><td>One ROM Lab</td></tr>"));
    assert!(html.contains("<td>A&lt;1&gt;</td>"));
    assert!(html.contains("<strong>Channel Size:</strong></td><td>1024</td></tr></table></div>"));
    let buttons = fw.get_buttons().unwrap();
    assert_eq!(buttons[0].path, "read_rom");
    assert_eq!(fw.handle_www_read_rom(Method::Post, None), Err(Error::NotImplemented));
    let (_, page) = fw.handle_www_read_rom(Method::Get, None).unwrap();
    assert!(page.unwrap().contains("<button onclick=\"readRom()\">Read ROM</button>"));
    assert_eq!(fw.check_rest_read_rom(Method::Post, false), Ok(()));
    assert_eq!(fw.check_rest_read_rom(Method::Get, false), Err(Error::NotImplemented));
    assert_eq!(fw.rpc_config(), Some((0x2000_9000, 0x2000_9400)));
    assert!(is_read_rom("read_rom"));
    assert!(!is_read_rom("read"));
    assert_eq!(OneRomLabHandlerInfo::name(), "One ROM Lab");
    let h = JsonToHtmler::default();
    let rows = h.summary(&lab());
    assert!(rows.contains("<td>V1.2.3</td>"));
    assert!(rows.contains("<td>0x20000100</td>"));
    assert!(h.complete(&lab()).contains("<h2>One ROM Lab</h2>\n<table class=\"device-info\">\n\n<tr>"));
}

#[test]
fn device_facts() {
    let mut d = Device::new();
    assert_eq!(d.flash_size_bytes(), 0);
    d.set_flash_size(4 * 1024 * 1024);
    assert_eq!(d.flash_size_bytes(), 4194304);
    assert_eq!(Device::mac_address_str([0x0a, 0xbc, 0x00, 0x12, 0xff, 0x01]), "0A:BC:00:12:FF:01");
    assert_eq!(Device::chip("esp32c3"), "ESP32C3");
    assert_eq!(Device::uptime_us(16_000_000, 16_000_000), 1_000_000);
    assert_eq!(Device::uptime_secs(3_500_000), 3);
    assert_eq!(Device::heap_size(), HEAP_SIZE);
    assert_eq!(HEAP_SIZE, 128 * 1024);
}
