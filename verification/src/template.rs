//! The fixed text of the bus adapters. A `$` in a template marks the places
//! where its one argument goes.
use vstd::prelude::*;

verus! {

/// A register adapter: its own declarations and the heading of the
/// write-address process.
pub const LITE_OPENING: &'static str = "    // AXI Lite Slave Port : Number $
    reg r_en$;
    wire w_wdata_en$;
    wire w_rdata_en$;

    // wready - waddress generating
";

/// A register adapter: the write-address and write-data handshake, from the
/// reset values on, with the flag that admits one write at a time, and the
/// heading of the write-data process.
pub const LITE_WRITE_HANDSHAKE: &'static str = "            r_wready$ <= 1'b0;
            r_awready$ <= 1'b0;
            r_en$ <= 1'b1;
            r_awaddr$ <= 0;
        end else begin
            if( ~r_wready$ && w_awvalid$ && w_wvalid$ && r_en$ ) begin
                r_wready$ <= 1'b1;
            end else begin
                r_wready$ <= 1'b0;
            end

            if( ~r_awready$ && w_awvalid$ && w_wvalid$ && r_en$ ) begin
                r_awready$ <= 1'b1;
                r_en$ <= 1'b0;
                r_awaddr$ <= i_s_awaddr$;
            end else begin
                if( w_bready$ && r_bvalid$ ) begin
                    r_en$ <= 1'b1;
                end
                r_awready$ <= 1'b0;
            end
        end
    end

    assign w_wdata_en$ = r_awready$ && r_wready$ && w_awvalid$ && w_wvalid$;

    // wdata generating
";

/// A register adapter: the write-data process from the end of its reset
/// branch to the selector of its case statement.
pub const LITE_WRITE_OPEN: &'static str = "        end
        else begin
            if( w_wdata_en$ == 1'd1 ) begin
                case ( r_awaddr$[";

/// A register adapter: the end of the write selector.
pub const LITE_WRITE_SELECT: &'static str = ":2] )
    // generate write register
";

/// A register adapter: the heading of the default clause of the write case
/// statement.
pub const LITE_WRITE_DEFAULT: &'static str = "                    default: begin
";

/// A register adapter: the end of the write case statement and the heading
/// of the local writes.
pub const LITE_WRITE_CASE_CLOSE: &'static str = "                    end
                endcase
            end
    // Local write en
";

/// A register adapter: the end of the write-data process and the heading of
/// the process after it.
pub const LITE_WRITE_CLOSE: &'static str = "        end
    end

    // wready - waddress generating
";

/// A register adapter: the write response and the read-address handshake,
/// from the reset values to the end of the process.
pub const LITE_RESPONSE: &'static str = "            r_bvalid$ <= 1'b0;
            r_arready$ <= 1'b0;
            r_araddr$ <= 0;
            r_rvalid$ <= 1'b0;
        end else begin
            if( r_awready$ && w_awvalid$ && ~r_bvalid$ && r_wready$ && w_wvalid$ ) begin
                r_bvalid$ <= 1'b1;
            end else if( w_bready$ && r_bvalid$ ) begin
                r_bvalid$ <= 1'b0;
            end

            if( ~r_arready$ && w_arvalid$ ) begin
                r_arready$ <= 1'b1;
                r_araddr$ <= i_s_araddr$;
            end else begin
                r_arready$ <= 1'b0;
            end
            if( r_arready$ && w_arvalid$ && ~r_rvalid$ ) begin
                r_rvalid$ <= 1'b1;
            end else if ( r_rvalid$ && w_rready$ ) begin
                r_rvalid$ <= 1'b0;
            end
        end
    end

";

/// A register adapter: the heading of the read-data part and its enable.
pub const LITE_READ_ENABLE: &'static str = "    // rdata generation
    assign w_rdata_en$ = r_arready$ && w_arvalid$ && ~r_rvalid$;

";

/// A register adapter: the read-data process from its reset value to the
/// selector of its case statement.
pub const LITE_READ_OPEN: &'static str = "            r_rdata$ <= 32'd0;\x20
        end
        else begin
            if( w_rdata_en$ ) begin
                case( r_araddr$[";

/// A register adapter: the default clause of the read case statement, with
/// the poison value, and the end of the read-data process.
pub const LITE_READ_CLOSE: &'static str = "                    default: r_rdata$ <= 32'hDEAD_DEAD;
                endcase
            end
        end
    end

";

/// A burst adapter: its first line.
pub const SLAVE_HEADING: &'static str = "    // AXI-full Slave Port

";

/// A burst adapter: the gates and beat counters that it declares.
pub const SLAVE_FLAGS: &'static str = "    reg            r_axi_awv_awr_flag;
    reg            r_axi_arv_arr_flag;
    reg    [7:0]   r_axi_awlen_count;
    reg    [7:0]   r_axi_arlen_count;
    reg    [1:0]   r_axi_arburst;
    reg    [1:0]   r_axi_awburst;

";

/// A burst adapter with a memory of its own: the body of the process that
/// writes the memory, from the bus or from the port beside it.
pub const SLAVE_MEMORY_WRITE: &'static str = "        if ( r_axi_wready & w_axi_wvalid ) begin
            axi_mem[r_axi_awaddr] <= w_axi_wdata;
        end else if ( axis_wen ) begin
            axi_mem[axis_addr] <= axis_write;
        end
    end

";

/// A burst adapter without a memory: the write enable that it hands out.
pub const SLAVE_WRITE_ENABLE: &'static str = "    assign axis_wen = r_axi_wready & w_axi_wvalid;
";

/// A burst adapter without a memory: the word address that it hands out.
/// The marker stands for the highest address bit.
pub const SLAVE_ADDRESS_SELECT: &'static str = "    assign axis_addr = (r_axi_awv_awr_flag) ? r_axi_awaddr[$:2] :\x20
                       (r_axi_arv_arr_flag) ? r_axi_araddr[$:2] : 0;";

/// A burst adapter: the heading of the write-address handshake.
pub const SLAVE_AWREADY_HEADING: &'static str = "    // awready - awv_awr_flag generating
";

/// A burst adapter: the write-address handshake and the flag that guards the write
/// phase, from the reset values on.
pub const SLAVE_AWREADY: &'static str = "            r_axi_awready <= 1'b0;
            r_axi_awv_awr_flag <= 1'b0;
        end else begin
            if (~r_axi_awready && w_axi_awvalid && ~r_axi_awv_awr_flag && ~r_axi_arv_arr_flag ) begin
                r_axi_awready <= 1'b1;
            r_axi_awv_awr_flag <= 1'b1;
            end else if ( w_axi_wlast && r_axi_wready ) begin
                r_axi_awv_awr_flag <= 1'b0;
            end else begin
                r_axi_awready <= 1'b0;
            end
        end
    end

";

/// A burst adapter: the heading of the write-address counter.
pub const SLAVE_AWADDR_HEADING: &'static str = "    // waddress generation
";

/// A burst adapter: the write address and its beat counter, for fixed and
/// incrementing bursts. The marker stands for the highest address bit.
pub const SLAVE_AWADDR: &'static str = "            r_axi_awaddr <= 0;
            r_axi_awlen_count <= 0;
            r_axi_awburst <= 0;
            r_axi_awlen <= 0;
        end else begin
            if ( ~r_axi_awready && w_axi_awvalid && ~r_axi_awv_awr_flag ) begin
                r_axi_awaddr <= i_saxi_awaddr;
                r_axi_awburst <= i_saxi_awburst;
                r_axi_awlen <= i_saxi_awlen;
                r_axi_awlen_count <= 0;
            end else if ( ( r_axi_awlen_count <= r_axi_awlen ) && r_axi_wready && w_axi_wvalid ) begin
                r_axi_awlen_count <= r_axi_awlen_count + 1;

                case ( r_axi_awburst )
                    2'b00: begin
                        r_axi_awaddr <= r_axi_awaddr;
                    end
                    2'b01: begin
                        r_axi_awaddr[$:2] <= r_axi_awaddr[$:2] + 1;
                        r_axi_awaddr[1:0] <= 2'b00;
                    end
                    default: begin
                        r_axi_awaddr <= r_axi_awaddr[$:2] + 1;
                    end
                endcase
            end
        end
    end

";

/// A burst adapter: the heading of the write-data handshake.
pub const SLAVE_WREADY_HEADING: &'static str = "    // wready generation
";

/// A burst adapter: the write-data handshake, from the reset value on.
pub const SLAVE_WREADY: &'static str = "            r_axi_wready <= 0;
        end else begin
            if ( ~r_axi_wready && w_axi_wvalid && r_axi_awv_awr_flag ) begin
                r_axi_wready <= 1'b1;
            end else begin
                r_axi_wready <= 1'b0;
            end
        end
    end

";

/// A burst adapter: the heading of the write response.
pub const SLAVE_BVALID_HEADING: &'static str = "    // write response generation
";

/// A burst adapter: the write response, from the reset value on.
pub const SLAVE_BVALID: &'static str = "            r_axi_bvalid <= 0;
        end else begin
            if ( r_axi_awv_awr_flag && r_axi_wready && w_axi_wvalid && ~r_axi_bvalid && w_axi_wlast ) begin
                r_axi_bvalid <= 1'b1;
            end else begin
                if ( w_axi_bready && r_axi_bvalid ) begin
                    r_axi_bvalid <= 1'b0;
                end
            end
        end
    end

";

/// A burst adapter: the heading of the read-address handshake.
pub const SLAVE_ARREADY_HEADING: &'static str = "    // arready - arv_arr_flag generation
";

/// A burst adapter: the read-address handshake and the flag that guards the read
/// phase, from the reset values on.
pub const SLAVE_ARREADY: &'static str = "            r_axi_arready <= 1'b0;
            r_axi_arv_arr_flag <= 1'b0;
        end else begin
            if ( ~r_axi_arready && w_axi_arvalid && ~r_axi_awv_awr_flag && ~r_axi_arv_arr_flag ) begin
                r_axi_arready <= 1'b1;
                r_axi_arv_arr_flag <= 1'b1;
            end else if ( r_axi_rvalid && w_axi_rready && r_axi_arlen_count == r_axi_arlen ) begin
                r_axi_arv_arr_flag <= 1'b0;
            end else begin
                r_axi_arready <= 1'b0;
            end
        end
    end

";

/// A burst adapter: the heading of the read-address counter.
pub const SLAVE_ARADDR_HEADING: &'static str = "    // raddress generation
";

/// A burst adapter: the read address, its beat counter and the last-beat
/// signal, for fixed and incrementing bursts. The marker stands for the
/// highest address bit.
pub const SLAVE_ARADDR: &'static str = "            r_axi_araddr <= 0;
            r_axi_arlen_count <= 0;
            r_axi_arburst <= 0;
            r_axi_arlen <= 0;
            r_axi_rlast <= 0;
        end else begin
            if ( ~r_axi_arready && w_axi_arvalid && ~r_axi_arv_arr_flag ) begin
                r_axi_araddr <= i_saxi_araddr;
                r_axi_arburst <= i_saxi_arburst;
                r_axi_arlen <= i_saxi_arlen;
                r_axi_arlen_count <= 0;
                r_axi_rlast <= 0;
            end else if ( ( r_axi_arlen_count <= r_axi_arlen ) && r_axi_rvalid && w_axi_rready ) begin
                r_axi_arlen_count <= r_axi_arlen_count + 1;
                r_axi_rlast <= 0;
                case ( r_axi_arburst )
                    2'b00: begin
                        r_axi_araddr <= r_axi_araddr;
                    end
                    2'b01: begin
                        r_axi_araddr[$:2] <= r_axi_araddr[$:2] + 1;
                        r_axi_araddr[1:0] <= 2'b00;
                    end
                    default: begin
                        r_axi_araddr <= r_axi_araddr[$:2];
                    end
                endcase
            end else if ( ( r_axi_arlen_count == r_axi_arlen ) && ~r_axi_rlast && r_axi_arv_arr_flag ) begin
                r_axi_rlast <= 1'b1;
            end else if ( w_axi_rready ) begin
                r_axi_rlast <= 1'b0;
            end
        end
    end

";

/// A burst adapter: the heading of the read-data handshake.
pub const SLAVE_RVALID_HEADING: &'static str = "    // rvalid generation
";

/// A burst adapter: the read-data handshake, from the reset value on.
pub const SLAVE_RVALID: &'static str = "            r_axi_rvalid <= 0;
        end else begin
            if ( ~r_axi_wready && w_axi_wvalid && r_axi_awv_awr_flag ) begin
                r_axi_rvalid <= 1'b1;
            end else begin
                r_axi_rvalid <= 1'b0;
            end
        end
    end

";

/// A burst adapter: the byte lanes of the write data, each gated by its
/// strobe bit.
pub const SLAVE_STROBES: &'static str = "    assign w_axi_wdata[0+:8] = i_saxi_wstrb[0] ? i_saxi_wdata[0+:8] : 0;
    assign w_axi_wdata[8+:8] = i_saxi_wstrb[1] ? i_saxi_wdata[8+:8] : 0;
    assign w_axi_wdata[16+:8] = i_saxi_wstrb[2] ? i_saxi_wdata[16+:8] : 0;
    assign w_axi_wdata[24+:8] = i_saxi_wstrb[3] ? i_saxi_wdata[24+:8] : 0;
";

/// A burst adapter with a memory of its own: the body of the process that
/// reads the memory. The marker stands for the highest address bit.
pub const SLAVE_MEMORY_READ: &'static str = "        r_axi_rdata <= axi_mem[r_axi_araddr[$:2]];
        axis_read <= axi_mem[axis_addr];
    end

";

/// A burst adapter without a memory: the heading of the process that
/// forwards the read data.
pub const SLAVE_READ_OPEN: &'static str = "
    always @(*) begin
";

/// A burst adapter without a memory: the read data where the caller gave
/// none.
pub const SLAVE_READ_DEFAULT: &'static str = "        r_axi_rdata <= axis_read;
";

/// A burst adapter without a memory: the end of the process that forwards
/// the read data, and the write data that it hands out.
pub const SLAVE_READ_CLOSE: &'static str = "    end

    assign axis_write = w_axi_wdata;
";

} // verus!
