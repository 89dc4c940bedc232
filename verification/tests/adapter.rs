use verugent::axi::{
    print_axi, print_axi_lite_slave, print_axis, AXIStreamRegCtrl, Axi4Slave, AxiLite,
    AxiMaster, AxiSlaveLocalWrite, AxiSlaveReadcontrol, AxiSlaveReg, AxiStream, Bus,
};
use verugent::builder::_Num;
use verugent::bus::AXITrait;
use verugent::error::ModelError;
use verugent::expr::E;
use verugent::module::{VModule, VSet};
use verugent::process::SetEqual;
use verugent::render::decomp_ast;
use verugent::signal::WireVar;
use verugent::width::{register_address_width, width_for};

const LITE_THREE: &str = "    // AXI Lite Slave Port : Number 0\n    reg r_en0;\n    wire w_wdata_en0;\n    wire w_rdata_en0;\n\n    // wready - waddress generating\n    always @( posedge clk ) begin\n        if( rst ) begin\n            r_wready0 <= 1'b0;\n            r_awready0 <= 1'b0;\n            r_en0 <= 1'b1;\n            r_awaddr0 <= 0;\n        end else begin\n            if( ~r_wready0 && w_awvalid0 && w_wvalid0 && r_en0 ) begin\n                r_wready0 <= 1'b1;\n            end else begin\n                r_wready0 <= 1'b0;\n            end\n\n            if( ~r_awready0 && w_awvalid0 && w_wvalid0 && r_en0 ) begin\n                r_awready0 <= 1'b1;\n                r_en0 <= 1'b0;\n                r_awaddr0 <= i_s_awaddr0;\n            end else begin\n                if( w_bready0 && r_bvalid0 ) begin\n                    r_en0 <= 1'b1;\n                end\n                r_awready0 <= 1'b0;\n            end\n        end\n    end\n\n    assign w_wdata_en0 = r_awready0 && r_wready0 && w_awvalid0 && w_wvalid0;\n\n    // wdata generating\n    always@( posedge clk ) begin\n        if( rst ) begin\n            calc_a <= 32'd0;\n            calc_b <= 32'd0;\n            output_calc <= 32'd0;\n        end\n        else begin\n            if( w_wdata_en0 == 1'd1 ) begin\n                case ( r_awaddr0[3:2] )\n    // generate write register\n                    2'h00 : begin\n                        if ( r_wstrb0[0] == 1'b1 ) calc_a <= w_wdata0[7:0];\n                        if ( r_wstrb0[1] == 1'b1 ) calc_a <= w_wdata0[15:8];\n                        if ( r_wstrb0[2] == 1'b1 ) calc_a <= w_wdata0[23:16];\n                        if ( r_wstrb0[3] == 1'b1 ) calc_a <= w_wdata0[31:24];\n                    end\n                    2'h01 : begin\n                        if ( r_wstrb0[0] == 1'b1 ) calc_b <= w_wdata0[7:0];\n                        if ( r_wstrb0[1] == 1'b1 ) calc_b <= w_wdata0[15:8];\n                        if ( r_wstrb0[2] == 1'b1 ) calc_b <= w_wdata0[23:16];\n                        if ( r_wstrb0[3] == 1'b1 ) calc_b <= w_wdata0[31:24];\n                    end\n                    2'h02 : begin\n                        if ( r_wstrb0[0] == 1'b1 ) output_calc <= w_wdata0[7:0];\n                        if ( r_wstrb0[1] == 1'b1 ) output_calc <= w_wdata0[15:8];\n                        if ( r_wstrb0[2] == 1'b1 ) output_calc <= w_wdata0[23:16];\n                        if ( r_wstrb0[3] == 1'b1 ) output_calc <= w_wdata0[31:24];\n                    end\n                    default: begin\n                        calc_a <= calc_a;\n                        calc_b <= calc_b;\n                        output_calc <= output_calc;\n                    end\n                endcase\n            end\n    // Local write en\n\n            if( write_en_cdata ) begin \n                    output_calc <= i_Calc;\n            end\n        end\n    end\n\n    // wready - waddress generating\n    always @( posedge clk ) begin\n        if( rst ) begin\n            r_bvalid0 <= 1'b0;\n            r_arready0 <= 1'b0;\n            r_araddr0 <= 0;\n            r_rvalid0 <= 1'b0;\n        end else begin\n            if( r_awready0 && w_awvalid0 && ~r_bvalid0 && r_wready0 && w_wvalid0 ) begin\n                r_bvalid0 <= 1'b1;\n            end else if( w_bready0 && r_bvalid0 ) begin\n                r_bvalid0 <= 1'b0;\n            end\n\n            if( ~r_arready0 && w_arvalid0 ) begin\n                r_arready0 <= 1'b1;\n                r_araddr0 <= i_s_araddr0;\n            end else begin\n                r_arready0 <= 1'b0;\n            end\n            if( r_arready0 && w_arvalid0 && ~r_rvalid0 ) begin\n                r_rvalid0 <= 1'b1;\n            end else if ( r_rvalid0 && w_rready0 ) begin\n                r_rvalid0 <= 1'b0;\n            end\n        end\n    end\n\n    // rdata generation\n    assign w_rdata_en0 = r_arready0 && w_arvalid0 && ~r_rvalid0;\n\n    always @( posedge clk ) begin\n        if( rst ) begin\n            r_rdata0 <= 32'd0; \n        end\n        else begin\n            if( w_rdata_en0 ) begin\n                case( r_araddr0[3:2] )\n                    2'h00 : r_rdata0 <= calc_a;\n                    2'h01 : r_rdata0 <= calc_b;\n                    2'h02 : r_rdata0 <= output_calc;\n                    default: r_rdata0 <= 32'hDEAD_DEAD;\n                endcase\n            end\n        end\n    end\n\n";

const LITE_NONE: &str = "    // AXI Lite Slave Port : Number 3\n    reg r_en3;\n    wire w_wdata_en3;\n    wire w_rdata_en3;\n\n    // wready - waddress generating\n    always @( posedge CLK ) begin\n        if( RST ) begin\n            r_wready3 <= 1'b0;\n            r_awready3 <= 1'b0;\n            r_en3 <= 1'b1;\n            r_awaddr3 <= 0;\n        end else begin\n            if( ~r_wready3 && w_awvalid3 && w_wvalid3 && r_en3 ) begin\n                r_wready3 <= 1'b1;\n            end else begin\n                r_wready3 <= 1'b0;\n            end\n\n            if( ~r_awready3 && w_awvalid3 && w_wvalid3 && r_en3 ) begin\n                r_awready3 <= 1'b1;\n                r_en3 <= 1'b0;\n                r_awaddr3 <= i_s_awaddr3;\n            end else begin\n                if( w_bready3 && r_bvalid3 ) begin\n                    r_en3 <= 1'b1;\n                end\n                r_awready3 <= 1'b0;\n            end\n        end\n    end\n\n    assign w_wdata_en3 = r_awready3 && r_wready3 && w_awvalid3 && w_wvalid3;\n\n    // wdata generating\n    always@( posedge CLK ) begin\n        if( RST ) begin\n        end\n        else begin\n            if( w_wdata_en3 == 1'd1 ) begin\n                case ( r_awaddr3[0:2] )\n    // generate write register\n                    default: begin\n                    end\n                endcase\n            end\n    // Local write en\n        end\n    end\n\n    // wready - waddress generating\n    always @( posedge CLK ) begin\n        if( RST ) begin\n            r_bvalid3 <= 1'b0;\n            r_arready3 <= 1'b0;\n            r_araddr3 <= 0;\n            r_rvalid3 <= 1'b0;\n        end else begin\n            if( r_awready3 && w_awvalid3 && ~r_bvalid3 && r_wready3 && w_wvalid3 ) begin\n                r_bvalid3 <= 1'b1;\n            end else if( w_bready3 && r_bvalid3 ) begin\n                r_bvalid3 <= 1'b0;\n            end\n\n            if( ~r_arready3 && w_arvalid3 ) begin\n                r_arready3 <= 1'b1;\n                r_araddr3 <= i_s_araddr3;\n            end else begin\n                r_arready3 <= 1'b0;\n            end\n            if( r_arready3 && w_arvalid3 && ~r_rvalid3 ) begin\n                r_rvalid3 <= 1'b1;\n            end else if ( r_rvalid3 && w_rready3 ) begin\n                r_rvalid3 <= 1'b0;\n            end\n        end\n    end\n\n    // rdata generation\n    assign w_rdata_en3 = r_arready3 && w_arvalid3 && ~r_rvalid3;\n\n    always @( posedge CLK ) begin\n        if( RST ) begin\n            r_rdata3 <= 32'd0; \n        end\n        else begin\n            if( w_rdata_en3 ) begin\n                case( r_araddr3[0:2] )\n                    default: r_rdata3 <= 32'hDEAD_DEAD;\n                endcase\n            end\n        end\n    end\n\n";

const LITE_SEVENTEEN: &str = "    // AXI Lite Slave Port : Number 1\n    reg r_en1;\n    wire w_wdata_en1;\n    wire w_rdata_en1;\n\n    // wready - waddress generating\n    always @( posedge c ) begin\n        if( r ) begin\n            r_wready1 <= 1'b0;\n            r_awready1 <= 1'b0;\n            r_en1 <= 1'b1;\n            r_awaddr1 <= 0;\n        end else begin\n            if( ~r_wready1 && w_awvalid1 && w_wvalid1 && r_en1 ) begin\n                r_wready1 <= 1'b1;\n            end else begin\n                r_wready1 <= 1'b0;\n            end\n\n            if( ~r_awready1 && w_awvalid1 && w_wvalid1 && r_en1 ) begin\n                r_awready1 <= 1'b1;\n                r_en1 <= 1'b0;\n                r_awaddr1 <= i_s_awaddr1;\n            end else begin\n                if( w_bready1 && r_bvalid1 ) begin\n                    r_en1 <= 1'b1;\n                end\n                r_awready1 <= 1'b0;\n            end\n        end\n    end\n\n    assign w_wdata_en1 = r_awready1 && r_wready1 && w_awvalid1 && w_wvalid1;\n\n    // wdata generating\n    always@( posedge c ) begin\n        if( r ) begin\n            slv_reg0 <= 32'd0;\n            slv_reg1 <= 32'd0;\n            slv_reg2 <= 32'd0;\n            slv_reg3 <= 32'd0;\n            slv_reg4 <= 32'd0;\n            slv_reg5 <= 32'd0;\n            slv_reg6 <= 32'd0;\n            slv_reg7 <= 32'd0;\n            slv_reg8 <= 32'd0;\n            slv_reg9 <= 32'd0;\n            slv_reg10 <= 32'd0;\n            slv_reg11 <= 32'd0;\n            slv_reg12 <= 32'd0;\n            slv_reg13 <= 32'd0;\n            slv_reg14 <= 32'd0;\n            slv_reg15 <= 32'd0;\n            slv_reg16 <= 32'd0;\n        end\n        else begin\n            if( w_wdata_en1 == 1'd1 ) begin\n                case ( r_awaddr1[6:2] )\n    // generate write register\n                    5'h00 : begin\n                        if ( r_wstrb1[0] == 1'b1 ) slv_reg0 <= w_wdata1[7:0];\n                        if ( r_wstrb1[1] == 1'b1 ) slv_reg0 <= w_wdata1[15:8];\n                        if ( r_wstrb1[2] == 1'b1 ) slv_reg0 <= w_wdata1[23:16];\n                        if ( r_wstrb1[3] == 1'b1 ) slv_reg0 <= w_wdata1[31:24];\n                    end\n                    5'h01 : begin\n                        if ( r_wstrb1[0] == 1'b1 ) slv_reg1 <= w_wdata1[7:0];\n                        if ( r_wstrb1[1] == 1'b1 ) slv_reg1 <= w_wdata1[15:8];\n                        if ( r_wstrb1[2] == 1'b1 ) slv_reg1 <= w_wdata1[23:16];\n                        if ( r_wstrb1[3] == 1'b1 ) slv_reg1 <= w_wdata1[31:24];\n                    end\n                    5'h02 : begin\n                        if ( r_wstrb1[0] == 1'b1 ) slv_reg2 <= w_wdata1[7:0];\n                        if ( r_wstrb1[1] == 1'b1 ) slv_reg2 <= w_wdata1[15:8];\n                        if ( r_wstrb1[2] == 1'b1 ) slv_reg2 <= w_wdata1[23:16];\n                        if ( r_wstrb1[3] == 1'b1 ) slv_reg2 <= w_wdata1[31:24];\n                    end\n                    5'h03 : begin\n                        if ( r_wstrb1[0] == 1'b1 ) slv_reg3 <= w_wdata1[7:0];\n                        if ( r_wstrb1[1] == 1'b1 ) slv_reg3 <= w_wdata1[15:8];\n                        if ( r_wstrb1[2] == 1'b1 ) slv_reg3 <= w_wdata1[23:16];\n                        if ( r_wstrb1[3] == 1'b1 ) slv_reg3 <= w_wdata1[31:24];\n                    end\n                    5'h04 : begin\n                        if ( r_wstrb1[0] == 1'b1 ) slv_reg4 <= w_wdata1[7:0];\n                        if ( r_wstrb1[1] == 1'b1 ) slv_reg4 <= w_wdata1[15:8];\n                        if ( r_wstrb1[2] == 1'b1 ) slv_reg4 <= w_wdata1[23:16];\n                        if ( r_wstrb1[3] == 1'b1 ) slv_reg4 <= w_wdata1[31:24];\n                    end\n                    5'h05 : begin\n                        if ( r_wstrb1[0] == 1'b1 ) slv_reg5 <= w_wdata1[7:0];\n                        if ( r_wstrb1[1] == 1'b1 ) slv_reg5 <= w_wdata1[15:8];\n                        if ( r_wstrb1[2] == 1'b1 ) slv_reg5 <= w_wdata1[23:16];\n                        if ( r_wstrb1[3] == 1'b1 ) slv_reg5 <= w_wdata1[31:24];\n                    end\n                    5'h06 : begin\n                        if ( r_wstrb1[0] == 1'b1 ) slv_reg6 <= w_wdata1[7:0];\n                        if ( r_wstrb1[1] == 1'b1 ) slv_reg6 <= w_wdata1[15:8];\n                        if ( r_wstrb1[2] == 1'b1 ) slv_reg6 <= w_wdata1[23:16];\n                        if ( r_wstrb1[3] == 1'b1 ) slv_reg6 <= w_wdata1[31:24];\n                    end\n                    5'h07 : begin\n                        if ( r_wstrb1[0] == 1'b1 ) slv_reg7 <= w_wdata1[7:0];\n                        if ( r_wstrb1[1] == 1'b1 ) slv_reg7 <= w_wdata1[15:8];\n                        if ( r_wstrb1[2] == 1'b1 ) slv_reg7 <= w_wdata1[23:16];\n                        if ( r_wstrb1[3] == 1'b1 ) slv_reg7 <= w_wdata1[31:24];\n                    end\n                    5'h08 : begin\n                        if ( r_wstrb1[0] == 1'b1 ) slv_reg8 <= w_wdata1[7:0];\n                        if ( r_wstrb1[1] == 1'b1 ) slv_reg8 <= w_wdata1[15:8];\n                        if ( r_wstrb1[2] == 1'b1 ) slv_reg8 <= w_wdata1[23:16];\n                        if ( r_wstrb1[3] == 1'b1 ) slv_reg8 <= w_wdata1[31:24];\n                    end\n                    5'h09 : begin\n                        if ( r_wstrb1[0] == 1'b1 ) slv_reg9 <= w_wdata1[7:0];\n                        if ( r_wstrb1[1] == 1'b1 ) slv_reg9 <= w_wdata1[15:8];\n                        if ( r_wstrb1[2] == 1'b1 ) slv_reg9 <= w_wdata1[23:16];\n                        if ( r_wstrb1[3] == 1'b1 ) slv_reg9 <= w_wdata1[31:24];\n                    end\n                    5'h0A : begin\n                        if ( r_wstrb1[0] == 1'b1 ) slv_reg10 <= w_wdata1[7:0];\n                        if ( r_wstrb1[1] == 1'b1 ) slv_reg10 <= w_wdata1[15:8];\n                        if ( r_wstrb1[2] == 1'b1 ) slv_reg10 <= w_wdata1[23:16];\n                        if ( r_wstrb1[3] == 1'b1 ) slv_reg10 <= w_wdata1[31:24];\n                    end\n                    5'h0B : begin\n                        if ( r_wstrb1[0] == 1'b1 ) slv_reg11 <= w_wdata1[7:0];\n                        if ( r_wstrb1[1] == 1'b1 ) slv_reg11 <= w_wdata1[15:8];\n                        if ( r_wstrb1[2] == 1'b1 ) slv_reg11 <= w_wdata1[23:16];\n                        if ( r_wstrb1[3] == 1'b1 ) slv_reg11 <= w_wdata1[31:24];\n                    end\n                    5'h0C : begin\n                        if ( r_wstrb1[0] == 1'b1 ) slv_reg12 <= w_wdata1[7:0];\n                        if ( r_wstrb1[1] == 1'b1 ) slv_reg12 <= w_wdata1[15:8];\n                        if ( r_wstrb1[2] == 1'b1 ) slv_reg12 <= w_wdata1[23:16];\n                        if ( r_wstrb1[3] == 1'b1 ) slv_reg12 <= w_wdata1[31:24];\n                    end\n                    5'h0D : begin\n                        if ( r_wstrb1[0] == 1'b1 ) slv_reg13 <= w_wdata1[7:0];\n                        if ( r_wstrb1[1] == 1'b1 ) slv_reg13 <= w_wdata1[15:8];\n                        if ( r_wstrb1[2] == 1'b1 ) slv_reg13 <= w_wdata1[23:16];\n                        if ( r_wstrb1[3] == 1'b1 ) slv_reg13 <= w_wdata1[31:24];\n                    end\n                    5'h0E : begin\n                        if ( r_wstrb1[0] == 1'b1 ) slv_reg14 <= w_wdata1[7:0];\n                        if ( r_wstrb1[1] == 1'b1 ) slv_reg14 <= w_wdata1[15:8];\n                        if ( r_wstrb1[2] == 1'b1 ) slv_reg14 <= w_wdata1[23:16];\n                        if ( r_wstrb1[3] == 1'b1 ) slv_reg14 <= w_wdata1[31:24];\n                    end\n                    5'h0F : begin\n                        if ( r_wstrb1[0] == 1'b1 ) slv_reg15 <= w_wdata1[7:0];\n                        if ( r_wstrb1[1] == 1'b1 ) slv_reg15 <= w_wdata1[15:8];\n                        if ( r_wstrb1[2] == 1'b1 ) slv_reg15 <= w_wdata1[23:16];\n                        if ( r_wstrb1[3] == 1'b1 ) slv_reg15 <= w_wdata1[31:24];\n                    end\n                    5'h10 : begin\n                        if ( r_wstrb1[0] == 1'b1 ) slv_reg16 <= w_wdata1[7:0];\n                        if ( r_wstrb1[1] == 1'b1 ) slv_reg16 <= w_wdata1[15:8];\n                        if ( r_wstrb1[2] == 1'b1 ) slv_reg16 <= w_wdata1[23:16];\n                        if ( r_wstrb1[3] == 1'b1 ) slv_reg16 <= w_wdata1[31:24];\n                    end\n                    default: begin\n                        slv_reg0 <= slv_reg0;\n                        slv_reg1 <= slv_reg1;\n                        slv_reg2 <= slv_reg2;\n                        slv_reg3 <= slv_reg3;\n                        slv_reg4 <= slv_reg4;\n                        slv_reg5 <= slv_reg5;\n                        slv_reg6 <= slv_reg6;\n                        slv_reg7 <= slv_reg7;\n                        slv_reg8 <= slv_reg8;\n                        slv_reg9 <= slv_reg9;\n                        slv_reg10 <= slv_reg10;\n                        slv_reg11 <= slv_reg11;\n                        slv_reg12 <= slv_reg12;\n                        slv_reg13 <= slv_reg13;\n                        slv_reg14 <= slv_reg14;\n                        slv_reg15 <= slv_reg15;\n                        slv_reg16 <= slv_reg16;\n                    end\n                endcase\n            end\n    // Local write en\n        end\n    end\n\n    // wready - waddress generating\n    always @( posedge c ) begin\n        if( r ) begin\n            r_bvalid1 <= 1'b0;\n            r_arready1 <= 1'b0;\n            r_araddr1 <= 0;\n            r_rvalid1 <= 1'b0;\n        end else begin\n            if( r_awready1 && w_awvalid1 && ~r_bvalid1 && r_wready1 && w_wvalid1 ) begin\n                r_bvalid1 <= 1'b1;\n            end else if( w_bready1 && r_bvalid1 ) begin\n                r_bvalid1 <= 1'b0;\n            end\n\n            if( ~r_arready1 && w_arvalid1 ) begin\n                r_arready1 <= 1'b1;\n                r_araddr1 <= i_s_araddr1;\n            end else begin\n                r_arready1 <= 1'b0;\n            end\n            if( r_arready1 && w_arvalid1 && ~r_rvalid1 ) begin\n                r_rvalid1 <= 1'b1;\n            end else if ( r_rvalid1 && w_rready1 ) begin\n                r_rvalid1 <= 1'b0;\n            end\n        end\n    end\n\n    // rdata generation\n    assign w_rdata_en1 = r_arready1 && w_arvalid1 && ~r_rvalid1;\n\n    always @( posedge c ) begin\n        if( r ) begin\n            r_rdata1 <= 32'd0; \n        end\n        else begin\n            if( w_rdata_en1 ) begin\n                case( r_araddr1[6:2] )\n                    5'h00 : r_rdata1 <= slv_reg0;\n                    5'h01 : r_rdata1 <= slv_reg1;\n                    5'h02 : r_rdata1 <= slv_reg2;\n                    5'h03 : r_rdata1 <= slv_reg3;\n                    5'h04 : r_rdata1 <= slv_reg4;\n                    5'h05 : r_rdata1 <= slv_reg5;\n                    5'h06 : r_rdata1 <= slv_reg6;\n                    5'h07 : r_rdata1 <= slv_reg7;\n                    5'h08 : r_rdata1 <= slv_reg8;\n                    5'h09 : r_rdata1 <= slv_reg9;\n                    5'h0A : r_rdata1 <= slv_reg10;\n                    5'h0B : r_rdata1 <= slv_reg11;\n                    5'h0C : r_rdata1 <= slv_reg12;\n                    5'h0D : r_rdata1 <= slv_reg13;\n                    5'h0E : r_rdata1 <= slv_reg14;\n                    5'h0F : r_rdata1 <= slv_reg15;\n                    5'h10 : r_rdata1 <= slv_reg16;\n                    default: r_rdata1 <= 32'hDEAD_DEAD;\n                endcase\n            end\n        end\n    end\n\n";

const SLAVE_EXTERNAL: &str = "    // AXI-full Slave Port\n\n    reg            r_axi_awv_awr_flag;\n    reg            r_axi_arv_arr_flag;\n    reg    [7:0]   r_axi_awlen_count;\n    reg    [7:0]   r_axi_arlen_count;\n    reg    [1:0]   r_axi_arburst;\n    reg    [1:0]   r_axi_awburst;\n\n    assign axis_wen = r_axi_wready & w_axi_wvalid;\n    assign axis_addr = (r_axi_awv_awr_flag) ? r_axi_awaddr[7:2] : \n                       (r_axi_arv_arr_flag) ? r_axi_araddr[7:2] : 0;    // awready - awv_awr_flag generating\n    always @( posedge clk ) begin\n        if ( rst ) begin\n            r_axi_awready <= 1'b0;\n            r_axi_awv_awr_flag <= 1'b0;\n        end else begin\n            if (~r_axi_awready && w_axi_awvalid && ~r_axi_awv_awr_flag && ~r_axi_arv_arr_flag ) begin\n                r_axi_awready <= 1'b1;\n            r_axi_awv_awr_flag <= 1'b1;\n            end else if ( w_axi_wlast && r_axi_wready ) begin\n                r_axi_awv_awr_flag <= 1'b0;\n            end else begin\n                r_axi_awready <= 1'b0;\n            end\n        end\n    end\n\n    // waddress generation\n    always @( posedge clk ) begin\n        if ( rst ) begin\n            r_axi_awaddr <= 0;\n            r_axi_awlen_count <= 0;\n            r_axi_awburst <= 0;\n            r_axi_awlen <= 0;\n        end else begin\n            if ( ~r_axi_awready && w_axi_awvalid && ~r_axi_awv_awr_flag ) begin\n                r_axi_awaddr <= i_saxi_awaddr;\n                r_axi_awburst <= i_saxi_awburst;\n                r_axi_awlen <= i_saxi_awlen;\n                r_axi_awlen_count <= 0;\n            end else if ( ( r_axi_awlen_count <= r_axi_awlen ) && r_axi_wready && w_axi_wvalid ) begin\n                r_axi_awlen_count <= r_axi_awlen_count + 1;\n\n                case ( r_axi_awburst )\n                    2'b00: begin\n                        r_axi_awaddr <= r_axi_awaddr;\n                    end\n                    2'b01: begin\n                        r_axi_awaddr[7:2] <= r_axi_awaddr[7:2] + 1;\n                        r_axi_awaddr[1:0] <= 2'b00;\n                    end\n                    default: begin\n                        r_axi_awaddr <= r_axi_awaddr[7:2] + 1;\n                    end\n                endcase\n            end\n        end\n    end\n\n    // wready generation\n    always @( posedge clk ) begin\n        if ( rst ) begin\n            r_axi_wready <= 0;\n        end else begin\n            if ( ~r_axi_wready && w_axi_wvalid && r_axi_awv_awr_flag ) begin\n                r_axi_wready <= 1'b1;\n            end else begin\n                r_axi_wready <= 1'b0;\n            end\n        end\n    end\n\n    // write response generation\n    always @( posedge clk ) begin\n        if ( rst ) begin\n            r_axi_bvalid <= 0;\n        end else begin\n            if ( r_axi_awv_awr_flag && r_axi_wready && w_axi_wvalid && ~r_axi_bvalid && w_axi_wlast ) begin\n                r_axi_bvalid <= 1'b1;\n            end else begin\n                if ( w_axi_bready && r_axi_bvalid ) begin\n                    r_axi_bvalid <= 1'b0;\n                end\n            end\n        end\n    end\n\n    // arready - arv_arr_flag generation\n    always @( posedge clk ) begin\n        if ( rst ) begin\n            r_axi_arready <= 1'b0;\n            r_axi_arv_arr_flag <= 1'b0;\n        end else begin\n            if ( ~r_axi_arready && w_axi_arvalid && ~r_axi_awv_awr_flag && ~r_axi_arv_arr_flag ) begin\n                r_axi_arready <= 1'b1;\n                r_axi_arv_arr_flag <= 1'b1;\n            end else if ( r_axi_rvalid && w_axi_rready && r_axi_arlen_count == r_axi_arlen ) begin\n                r_axi_arv_arr_flag <= 1'b0;\n            end else begin\n                r_axi_arready <= 1'b0;\n            end\n        end\n    end\n\n    // raddress generation\n    always @( posedge clk ) begin\n        if ( rst ) begin\n            r_axi_araddr <= 0;\n            r_axi_arlen_count <= 0;\n            r_axi_arburst <= 0;\n            r_axi_arlen <= 0;\n            r_axi_rlast <= 0;\n        end else begin\n            if ( ~r_axi_arready && w_axi_arvalid && ~r_axi_arv_arr_flag ) begin\n                r_axi_araddr <= i_saxi_araddr;\n                r_axi_arburst <= i_saxi_arburst;\n                r_axi_arlen <= i_saxi_arlen;\n                r_axi_arlen_count <= 0;\n                r_axi_rlast <= 0;\n            end else if ( ( r_axi_arlen_count <= r_axi_arlen ) && r_axi_rvalid && w_axi_rready ) begin\n                r_axi_arlen_count <= r_axi_arlen_count + 1;\n                r_axi_rlast <= 0;\n                case ( r_axi_arburst )\n                    2'b00: begin\n                        r_axi_araddr <= r_axi_araddr;\n                    end\n                    2'b01: begin\n                        r_axi_araddr[7:2] <= r_axi_araddr[7:2] + 1;\n                        r_axi_araddr[1:0] <= 2'b00;\n                    end\n                    default: begin\n                        r_axi_araddr <= r_axi_araddr[7:2];\n                    end\n                endcase\n            end else if ( ( r_axi_arlen_count == r_axi_arlen ) && ~r_axi_rlast && r_axi_arv_arr_flag ) begin\n                r_axi_rlast <= 1'b1;\n            end else if ( w_axi_rready ) begin\n                r_axi_rlast <= 1'b0;\n            end\n        end\n    end\n\n    // rvalid generation\n    always @( posedge clk ) begin\n        if ( rst ) begin\n            r_axi_rvalid <= 0;\n        end else begin\n            if ( ~r_axi_wready && w_axi_wvalid && r_axi_awv_awr_flag ) begin\n                r_axi_rvalid <= 1'b1;\n            end else begin\n                r_axi_rvalid <= 1'b0;\n            end\n        end\n    end\n\n    assign w_axi_wdata[0+:8] = i_saxi_wstrb[0] ? i_saxi_wdata[0+:8] : 0;\n    assign w_axi_wdata[8+:8] = i_saxi_wstrb[1] ? i_saxi_wdata[8+:8] : 0;\n    assign w_axi_wdata[16+:8] = i_saxi_wstrb[2] ? i_saxi_wdata[16+:8] : 0;\n    assign w_axi_wdata[24+:8] = i_saxi_wstrb[3] ? i_saxi_wdata[24+:8] : 0;\n\n    always @(*) begin\n        r_axi_rdata <= axis_read;\n    end\n\n    assign axis_write = w_axi_wdata;\n";

const SLAVE_MEMORY: &str = "    // AXI-full Slave Port\n\n    reg            r_axi_awv_awr_flag;\n    reg            r_axi_arv_arr_flag;\n    reg    [7:0]   r_axi_awlen_count;\n    reg    [7:0]   r_axi_arlen_count;\n    reg    [1:0]   r_axi_arburst;\n    reg    [1:0]   r_axi_awburst;\n\n    reg [31:0] axi_mem [0:63];\n    always @( posedge clk ) begin\n        if ( r_axi_wready & w_axi_wvalid ) begin\n            axi_mem[r_axi_awaddr] <= w_axi_wdata;\n        end else if ( axis_wen ) begin\n            axi_mem[axis_addr] <= axis_write;\n        end\n    end\n\n    // awready - awv_awr_flag generating\n    always @( posedge clk ) begin\n        if ( rst ) begin\n            r_axi_awready <= 1'b0;\n            r_axi_awv_awr_flag <= 1'b0;\n        end else begin\n            if (~r_axi_awready && w_axi_awvalid && ~r_axi_awv_awr_flag && ~r_axi_arv_arr_flag ) begin\n                r_axi_awready <= 1'b1;\n            r_axi_awv_awr_flag <= 1'b1;\n            end else if ( w_axi_wlast && r_axi_wready ) begin\n                r_axi_awv_awr_flag <= 1'b0;\n            end else begin\n                r_axi_awready <= 1'b0;\n            end\n        end\n    end\n\n    // waddress generation\n    always @( posedge clk ) begin\n        if ( rst ) begin\n            r_axi_awaddr <= 0;\n            r_axi_awlen_count <= 0;\n            r_axi_awburst <= 0;\n            r_axi_awlen <= 0;\n        end else begin\n            if ( ~r_axi_awready && w_axi_awvalid && ~r_axi_awv_awr_flag ) begin\n                r_axi_awaddr <= i_saxi_awaddr;\n                r_axi_awburst <= i_saxi_awburst;\n                r_axi_awlen <= i_saxi_awlen;\n                r_axi_awlen_count <= 0;\n            end else if ( ( r_axi_awlen_count <= r_axi_awlen ) && r_axi_wready && w_axi_wvalid ) begin\n                r_axi_awlen_count <= r_axi_awlen_count + 1;\n\n                case ( r_axi_awburst )\n                    2'b00: begin\n                        r_axi_awaddr <= r_axi_awaddr;\n                    end\n                    2'b01: begin\n                        r_axi_awaddr[7:2] <= r_axi_awaddr[7:2] + 1;\n                        r_axi_awaddr[1:0] <= 2'b00;\n                    end\n                    default: begin\n                        r_axi_awaddr <= r_axi_awaddr[7:2] + 1;\n                    end\n                endcase\n            end\n        end\n    end\n\n    // wready generation\n    always @( posedge clk ) begin\n        if ( rst ) begin\n            r_axi_wready <= 0;\n        end else begin\n            if ( ~r_axi_wready && w_axi_wvalid && r_axi_awv_awr_flag ) begin\n                r_axi_wready <= 1'b1;\n            end else begin\n                r_axi_wready <= 1'b0;\n            end\n        end\n    end\n\n    // write response generation\n    always @( posedge clk ) begin\n        if ( rst ) begin\n            r_axi_bvalid <= 0;\n        end else begin\n            if ( r_axi_awv_awr_flag && r_axi_wready && w_axi_wvalid && ~r_axi_bvalid && w_axi_wlast ) begin\n                r_axi_bvalid <= 1'b1;\n            end else begin\n                if ( w_axi_bready && r_axi_bvalid ) begin\n                    r_axi_bvalid <= 1'b0;\n                end\n            end\n        end\n    end\n\n    // arready - arv_arr_flag generation\n    always @( posedge clk ) begin\n        if ( rst ) begin\n            r_axi_arready <= 1'b0;\n            r_axi_arv_arr_flag <= 1'b0;\n        end else begin\n            if ( ~r_axi_arready && w_axi_arvalid && ~r_axi_awv_awr_flag && ~r_axi_arv_arr_flag ) begin\n                r_axi_arready <= 1'b1;\n                r_axi_arv_arr_flag <= 1'b1;\n            end else if ( r_axi_rvalid && w_axi_rready && r_axi_arlen_count == r_axi_arlen ) begin\n                r_axi_arv_arr_flag <= 1'b0;\n            end else begin\n                r_axi_arready <= 1'b0;\n            end\n        end\n    end\n\n    // raddress generation\n    always @( posedge clk ) begin\n        if ( rst ) begin\n            r_axi_araddr <= 0;\n            r_axi_arlen_count <= 0;\n            r_axi_arburst <= 0;\n            r_axi_arlen <= 0;\n            r_axi_rlast <= 0;\n        end else begin\n            if ( ~r_axi_arready && w_axi_arvalid && ~r_axi_arv_arr_flag ) begin\n                r_axi_araddr <= i_saxi_araddr;\n                r_axi_arburst <= i_saxi_arburst;\n                r_axi_arlen <= i_saxi_arlen;\n                r_axi_arlen_count <= 0;\n                r_axi_rlast <= 0;\n            end else if ( ( r_axi_arlen_count <= r_axi_arlen ) && r_axi_rvalid && w_axi_rready ) begin\n                r_axi_arlen_count <= r_axi_arlen_count + 1;\n                r_axi_rlast <= 0;\n                case ( r_axi_arburst )\n                    2'b00: begin\n                        r_axi_araddr <= r_axi_araddr;\n                    end\n                    2'b01: begin\n                        r_axi_araddr[7:2] <= r_axi_araddr[7:2] + 1;\n                        r_axi_araddr[1:0] <= 2'b00;\n                    end\n                    default: begin\n                        r_axi_araddr <= r_axi_araddr[7:2];\n                    end\n                endcase\n            end else if ( ( r_axi_arlen_count == r_axi_arlen ) && ~r_axi_rlast && r_axi_arv_arr_flag ) begin\n                r_axi_rlast <= 1'b1;\n            end else if ( w_axi_rready ) begin\n                r_axi_rlast <= 1'b0;\n            end\n        end\n    end\n\n    // rvalid generation\n    always @( posedge clk ) begin\n        if ( rst ) begin\n            r_axi_rvalid <= 0;\n        end else begin\n            if ( ~r_axi_wready && w_axi_wvalid && r_axi_awv_awr_flag ) begin\n                r_axi_rvalid <= 1'b1;\n            end else begin\n                r_axi_rvalid <= 1'b0;\n            end\n        end\n    end\n\n    assign w_axi_wdata[0+:8] = i_saxi_wstrb[0] ? i_saxi_wdata[0+:8] : 0;\n    assign w_axi_wdata[8+:8] = i_saxi_wstrb[1] ? i_saxi_wdata[8+:8] : 0;\n    assign w_axi_wdata[16+:8] = i_saxi_wstrb[2] ? i_saxi_wdata[16+:8] : 0;\n    assign w_axi_wdata[24+:8] = i_saxi_wstrb[3] ? i_saxi_wdata[24+:8] : 0;\n\n    always @( posedge clk ) begin\n        r_axi_rdata <= axi_mem[r_axi_araddr[7:2]];\n        axis_read <= axi_mem[axis_addr];\n    end\n\n";

const SLAVE_READ: &str = "    // AXI-full Slave Port\n\n    reg            r_axi_awv_awr_flag;\n    reg            r_axi_arv_arr_flag;\n    reg    [7:0]   r_axi_awlen_count;\n    reg    [7:0]   r_axi_arlen_count;\n    reg    [1:0]   r_axi_arburst;\n    reg    [1:0]   r_axi_awburst;\n\n    assign axis_wen = r_axi_wready & w_axi_wvalid;\n    assign axis_addr = (r_axi_awv_awr_flag) ? r_axi_awaddr[4:2] : \n                       (r_axi_arv_arr_flag) ? r_axi_araddr[4:2] : 0;    // awready - awv_awr_flag generating\n    always @( posedge clk ) begin\n        if ( rst ) begin\n            r_axi_awready <= 1'b0;\n            r_axi_awv_awr_flag <= 1'b0;\n        end else begin\n            if (~r_axi_awready && w_axi_awvalid && ~r_axi_awv_awr_flag && ~r_axi_arv_arr_flag ) begin\n                r_axi_awready <= 1'b1;\n            r_axi_awv_awr_flag <= 1'b1;\n            end else if ( w_axi_wlast && r_axi_wready ) begin\n                r_axi_awv_awr_flag <= 1'b0;\n            end else begin\n                r_axi_awready <= 1'b0;\n            end\n        end\n    end\n\n    // waddress generation\n    always @( posedge clk ) begin\n        if ( rst ) begin\n            r_axi_awaddr <= 0;\n            r_axi_awlen_count <= 0;\n            r_axi_awburst <= 0;\n            r_axi_awlen <= 0;\n        end else begin\n            if ( ~r_axi_awready && w_axi_awvalid && ~r_axi_awv_awr_flag ) begin\n                r_axi_awaddr <= i_saxi_awaddr;\n                r_axi_awburst <= i_saxi_awburst;\n                r_axi_awlen <= i_saxi_awlen;\n                r_axi_awlen_count <= 0;\n            end else if ( ( r_axi_awlen_count <= r_axi_awlen ) && r_axi_wready && w_axi_wvalid ) begin\n                r_axi_awlen_count <= r_axi_awlen_count + 1;\n\n                case ( r_axi_awburst )\n                    2'b00: begin\n                        r_axi_awaddr <= r_axi_awaddr;\n                    end\n                    2'b01: begin\n                        r_axi_awaddr[4:2] <= r_axi_awaddr[4:2] + 1;\n                        r_axi_awaddr[1:0] <= 2'b00;\n                    end\n                    default: begin\n                        r_axi_awaddr <= r_axi_awaddr[4:2] + 1;\n                    end\n                endcase\n            end\n        end\n    end\n\n    // wready generation\n    always @( posedge clk ) begin\n        if ( rst ) begin\n            r_axi_wready <= 0;\n        end else begin\n            if ( ~r_axi_wready && w_axi_wvalid && r_axi_awv_awr_flag ) begin\n                r_axi_wready <= 1'b1;\n            end else begin\n                r_axi_wready <= 1'b0;\n            end\n        end\n    end\n\n    // write response generation\n    always @( posedge clk ) begin\n        if ( rst ) begin\n            r_axi_bvalid <= 0;\n        end else begin\n            if ( r_axi_awv_awr_flag && r_axi_wready && w_axi_wvalid && ~r_axi_bvalid && w_axi_wlast ) begin\n                r_axi_bvalid <= 1'b1;\n            end else begin\n                if ( w_axi_bready && r_axi_bvalid ) begin\n                    r_axi_bvalid <= 1'b0;\n                end\n            end\n        end\n    end\n\n    // arready - arv_arr_flag generation\n    always @( posedge clk ) begin\n        if ( rst ) begin\n            r_axi_arready <= 1'b0;\n            r_axi_arv_arr_flag <= 1'b0;\n        end else begin\n            if ( ~r_axi_arready && w_axi_arvalid && ~r_axi_awv_awr_flag && ~r_axi_arv_arr_flag ) begin\n                r_axi_arready <= 1'b1;\n                r_axi_arv_arr_flag <= 1'b1;\n            end else if ( r_axi_rvalid && w_axi_rready && r_axi_arlen_count == r_axi_arlen ) begin\n                r_axi_arv_arr_flag <= 1'b0;\n            end else begin\n                r_axi_arready <= 1'b0;\n            end\n        end\n    end\n\n    // raddress generation\n    always @( posedge clk ) begin\n        if ( rst ) begin\n            r_axi_araddr <= 0;\n            r_axi_arlen_count <= 0;\n            r_axi_arburst <= 0;\n            r_axi_arlen <= 0;\n            r_axi_rlast <= 0;\n        end else begin\n            if ( ~r_axi_arready && w_axi_arvalid && ~r_axi_arv_arr_flag ) begin\n                r_axi_araddr <= i_saxi_araddr;\n                r_axi_arburst <= i_saxi_arburst;\n                r_axi_arlen <= i_saxi_arlen;\n                r_axi_arlen_count <= 0;\n                r_axi_rlast <= 0;\n            end else if ( ( r_axi_arlen_count <= r_axi_arlen ) && r_axi_rvalid && w_axi_rready ) begin\n                r_axi_arlen_count <= r_axi_arlen_count + 1;\n                r_axi_rlast <= 0;\n                case ( r_axi_arburst )\n                    2'b00: begin\n                        r_axi_araddr <= r_axi_araddr;\n                    end\n                    2'b01: begin\n                        r_axi_araddr[4:2] <= r_axi_araddr[4:2] + 1;\n                        r_axi_araddr[1:0] <= 2'b00;\n                    end\n                    default: begin\n                        r_axi_araddr <= r_axi_araddr[4:2];\n                    end\n                endcase\n            end else if ( ( r_axi_arlen_count == r_axi_arlen ) && ~r_axi_rlast && r_axi_arv_arr_flag ) begin\n                r_axi_rlast <= 1'b1;\n            end else if ( w_axi_rready ) begin\n                r_axi_rlast <= 1'b0;\n            end\n        end\n    end\n\n    // rvalid generation\n    always @( posedge clk ) begin\n        if ( rst ) begin\n            r_axi_rvalid <= 0;\n        end else begin\n            if ( ~r_axi_wready && w_axi_wvalid && r_axi_awv_awr_flag ) begin\n                r_axi_rvalid <= 1'b1;\n            end else begin\n                r_axi_rvalid <= 1'b0;\n            end\n        end\n    end\n\n    assign w_axi_wdata[0+:8] = i_saxi_wstrb[0] ? i_saxi_wdata[0+:8] : 0;\n    assign w_axi_wdata[8+:8] = i_saxi_wstrb[1] ? i_saxi_wdata[8+:8] : 0;\n    assign w_axi_wdata[16+:8] = i_saxi_wstrb[2] ? i_saxi_wdata[16+:8] : 0;\n    assign w_axi_wdata[24+:8] = i_saxi_wstrb[3] ? i_saxi_wdata[24+:8] : 0;\n\n    always @(*) begin\n        r_axi_rdata <= source;\n    end\n\n    assign axis_write = w_axi_wdata;\n";

const AXI_EXAMPLE: &str = "module axi_interface (\n    input  [0-1:0] clk [0-1:0],\n    input  [0-1:0] rst [0-1:0],\n    output [32-1:0] o_A [0-1:0],\n    output [32-1:0] o_B [0-1:0],\n    input  [32-1:0] i_Calc [0-1:0],\n    output [0-1:0] o_s_arready0 [0-1:0],\n    input  [0-1:0] i_s_arvalid0 [0-1:0],\n    input  [4-1:0] i_s_araddr0 [0-1:0],\n    input  [3-1:0] i_s_arprot0 [0-1:0],\n    output [32-1:0] o_s_rdata0 [0-1:0],\n    output [2-1:0] o_s_rresp0 [0-1:0],\n    output [0-1:0] o_s_rvalid0 [0-1:0],\n    input  [0-1:0] i_s_rready0 [0-1:0],\n    output [0-1:0] o_s_awready0 [0-1:0],\n    input  [0-1:0] i_s_awvalid0 [0-1:0],\n    input  [4-1:0] i_s_awaddr0 [0-1:0],\n    input  [3-1:0] i_s_awprot0 [0-1:0],\n    input  [32-1:0] i_s_wdata0 [0-1:0],\n    input  [4-1:0] i_s_wstrb0 [0-1:0],\n    input  [0-1:0] i_s_wvalid0 [0-1:0],\n    output [0-1:0] o_s_wready0 [0-1:0],\n    output [2-1:0] o_s_bresp0 [0-1:0],\n    output [0-1:0] o_s_bvalid0 [0-1:0],\n    input  [0-1:0] i_s_bready0 [0-1:0]\n);\n    parameter write_en_cdata = 0;\n    parameter r_arready0 = 0;\n    parameter w_arvalid0 = 0;\n    parameter r_araddr0 = 0;\n    parameter r_rdata0 = 0;\n    parameter r_rvalid0 = 0;\n    parameter w_rready0 = 0;\n    parameter r_awready0 = 0;\n    parameter w_awvalid0 = 0;\n    parameter r_awaddr0 = 0;\n    parameter w_wdata0 = 0;\n    parameter r_wstrb0 = 0;\n    parameter w_wvalid0 = 0;\n    parameter r_wready0 = 0;\n    parameter r_bvalid0 = 0;\n    parameter w_bready0 = 0;\n    parameter calc_a = 0;\n    parameter calc_b = 0;\n    parameter output_calc = 0;\n    assign o_A = ;\n    assign o_B = ;\n    assign write_en_cdata = 1;\n    assign o_s_arready0 = r_arready0;\n    assign w_arvalid0 = i_s_arvalid0;\n    assign o_s_rdata0 = r_rdata0;\n    assign o_s_rresp0 = 0;\n    assign o_s_rvalid0 = r_rvalid0;\n    assign w_rready0 = i_s_rready0;\n    assign o_s_awready0 = r_awready0;\n    assign w_awvalid0 = i_s_awvalid0;\n    assign w_wdata0 = i_s_wdata0;\n    assign r_wstrb0 = i_s_wstrb0;\n    assign w_wvalid0 = i_s_wvalid0;\n    assign o_s_wready0 = r_wready0;\n    assign o_s_bresp0 = 0;\n    assign o_s_bvalid0 = r_bvalid0;\n    assign w_bready0 = i_s_bready0;\n    // AXI Lite Slave Port : Number 0\n    reg r_en0;\n    wire w_wdata_en0;\n    wire w_rdata_en0;\n\n    // wready - waddress generating\n    always @( posedge clk ) begin\n        if( rst ) begin\n            r_wready0 <= 1'b0;\n            r_awready0 <= 1'b0;\n            r_en0 <= 1'b1;\n            r_awaddr0 <= 0;\n        end else begin\n            if( ~r_wready0 && w_awvalid0 && w_wvalid0 && r_en0 ) begin\n                r_wready0 <= 1'b1;\n            end else begin\n                r_wready0 <= 1'b0;\n            end\n\n            if( ~r_awready0 && w_awvalid0 && w_wvalid0 && r_en0 ) begin\n                r_awready0 <= 1'b1;\n                r_en0 <= 1'b0;\n                r_awaddr0 <= i_s_awaddr0;\n            end else begin\n                if( w_bready0 && r_bvalid0 ) begin\n                    r_en0 <= 1'b1;\n                end\n                r_awready0 <= 1'b0;\n            end\n        end\n    end\n\n    assign w_wdata_en0 = r_awready0 && r_wready0 && w_awvalid0 && w_wvalid0;\n\n    // wdata generating\n    always@( posedge clk ) begin\n        if( rst ) begin\n            calc_a <= 32'd0;\n            calc_b <= 32'd0;\n            output_calc <= 32'd0;\n        end\n        else begin\n            if( w_wdata_en0 == 1'd1 ) begin\n                case ( r_awaddr0[3:2] )\n    // generate write register\n                    2'h00 : begin\n                        if ( r_wstrb0[0] == 1'b1 ) calc_a <= w_wdata0[7:0];\n                        if ( r_wstrb0[1] == 1'b1 ) calc_a <= w_wdata0[15:8];\n                        if ( r_wstrb0[2] == 1'b1 ) calc_a <= w_wdata0[23:16];\n                        if ( r_wstrb0[3] == 1'b1 ) calc_a <= w_wdata0[31:24];\n                    end\n                    2'h01 : begin\n                        if ( r_wstrb0[0] == 1'b1 ) calc_b <= w_wdata0[7:0];\n                        if ( r_wstrb0[1] == 1'b1 ) calc_b <= w_wdata0[15:8];\n                        if ( r_wstrb0[2] == 1'b1 ) calc_b <= w_wdata0[23:16];\n                        if ( r_wstrb0[3] == 1'b1 ) calc_b <= w_wdata0[31:24];\n                    end\n                    2'h02 : begin\n                        if ( r_wstrb0[0] == 1'b1 ) output_calc <= w_wdata0[7:0];\n                        if ( r_wstrb0[1] == 1'b1 ) output_calc <= w_wdata0[15:8];\n                        if ( r_wstrb0[2] == 1'b1 ) output_calc <= w_wdata0[23:16];\n                        if ( r_wstrb0[3] == 1'b1 ) output_calc <= w_wdata0[31:24];\n                    end\n                    default: begin\n                        calc_a <= calc_a;\n                        calc_b <= calc_b;\n                        output_calc <= output_calc;\n                    end\n                endcase\n            end\n    // Local write en\n\n            if( write_en_cdata ) begin \n                    output_calc <= i_Calc;\n            end\n        end\n    end\n\n    // wready - waddress generating\n    always @( posedge clk ) begin\n        if( rst ) begin\n            r_bvalid0 <= 1'b0;\n            r_arready0 <= 1'b0;\n            r_araddr0 <= 0;\n            r_rvalid0 <= 1'b0;\n        end else begin\n            if( r_awready0 && w_awvalid0 && ~r_bvalid0 && r_wready0 && w_wvalid0 ) begin\n                r_bvalid0 <= 1'b1;\n            end else if( w_bready0 && r_bvalid0 ) begin\n                r_bvalid0 <= 1'b0;\n            end\n\n            if( ~r_arready0 && w_arvalid0 ) begin\n                r_arready0 <= 1'b1;\n                r_araddr0 <= i_s_araddr0;\n            end else begin\n                r_arready0 <= 1'b0;\n            end\n            if( r_arready0 && w_arvalid0 && ~r_rvalid0 ) begin\n                r_rvalid0 <= 1'b1;\n            end else if ( r_rvalid0 && w_rready0 ) begin\n                r_rvalid0 <= 1'b0;\n            end\n        end\n    end\n\n    // rdata generation\n    assign w_rdata_en0 = r_arready0 && w_arvalid0 && ~r_rvalid0;\n\n    always @( posedge clk ) begin\n        if( rst ) begin\n            r_rdata0 <= 32'd0; \n        end\n        else begin\n            if( w_rdata_en0 ) begin\n                case( r_araddr0[3:2] )\n                    2'h00 : r_rdata0 <= calc_a;\n                    2'h01 : r_rdata0 <= calc_b;\n                    2'h02 : r_rdata0 <= output_calc;\n                    default: r_rdata0 <= 32'hDEAD_DEAD;\n                endcase\n            end\n        end\n    end\n\n\nendmodule\n";

const AXIFULL_EXAMPLE: &str = "module axi_full_interface (\n    input  [0-1:0] clk [0-1:0],\n    input  [0-1:0] rst [0-1:0],\n    input  [0-1:0] i_saxi_arid [0-1:0],\n    output [0-1:0] o_saxi_arready [0-1:0],\n    input  [0-1:0] i_saxi_arvalid [0-1:0],\n    input  [8-1:0] i_saxi_araddr [0-1:0],\n    input  [8-1:0] i_saxi_arlen [0-1:0],\n    input  [2-1:0] i_saxi_arburst [0-1:0],\n    output [0-1:0] o_saxi_rid [0-1:0],\n    output [32-1:0] o_saxi_rdata [0-1:0],\n    output [2-1:0] o_saxi_rresp [0-1:0],\n    output [0-1:0] o_saxi_rvalid [0-1:0],\n    input  [0-1:0] i_saxi_rready [0-1:0],\n    output [0-1:0] o_saxi_rlast [0-1:0],\n    input  [0-1:0] i_saxi_awid [0-1:0],\n    output [0-1:0] o_saxi_awready [0-1:0],\n    input  [0-1:0] i_saxi_awvalid [0-1:0],\n    input  [8-1:0] i_saxi_awaddr [0-1:0],\n    input  [8-1:0] i_saxi_awlen [0-1:0],\n    input  [2-1:0] i_saxi_awburst [0-1:0],\n    input  [32-1:0] i_saxi_wdata [0-1:0],\n    input  [4-1:0] i_saxi_wstrb [0-1:0],\n    input  [0-1:0] i_saxi_wlast [0-1:0],\n    input  [0-1:0] i_saxi_wvalid [0-1:0],\n    output [0-1:0] o_saxi_wready [0-1:0],\n    output [0-1:0] o_saxi_bid [0-1:0],\n    output [2-1:0] o_saxi_bresp [0-1:0],\n    output [0-1:0] o_saxi_bvalid [0-1:0],\n    input  [0-1:0] i_saxi_bready [0-1:0]\n);\n    parameter r_axi_awready = 0;\n    parameter w_axi_awvalid = 0;\n    parameter r_axi_awaddr = 0;\n    parameter r_axi_awlen = 0;\n    parameter w_axi_wdata = 0;\n    parameter w_axi_wlast = 0;\n    parameter w_axi_wvalid = 0;\n    parameter r_axi_wready = 0;\n    parameter r_axi_bvalid = 0;\n    parameter w_axi_bready = 0;\n    parameter r_axi_arready = 0;\n    parameter w_axi_arvalid = 0;\n    parameter r_axi_araddr = 0;\n    parameter r_axi_arlen = 0;\n    parameter r_axi_rdata = 0;\n    parameter r_axi_rvalid = 0;\n    parameter w_axi_rready = 0;\n    parameter r_axi_rlast = 0;\n    parameter axis_read = 0;\n    parameter axis_write = 0;\n    parameter axis_addr = 0;\n    parameter axis_wen = 0;\n    assign o_saxi_rid = i_saxi_arid;\n    assign o_saxi_rresp = 0;\n    assign o_saxi_rdata = r_axi_rdata;\n    assign o_saxi_rvalid = r_axi_rvalid;\n    assign w_axi_rready = i_saxi_rready;\n    assign o_saxi_rlast = r_axi_rlast;\n    assign o_saxi_arready = r_axi_arready;\n    assign w_axi_arvalid = i_saxi_arvalid;\n    assign w_axi_wlast = i_saxi_wlast;\n    assign w_axi_wvalid = i_saxi_wvalid;\n    assign o_saxi_wready = r_axi_wready;\n    assign o_saxi_awready = r_axi_awready;\n    assign w_axi_awvalid = i_saxi_awvalid;\n    assign o_saxi_bvalid = r_axi_bvalid;\n    assign w_axi_bready = i_saxi_bready;\n    assign o_saxi_bid = i_saxi_awid;\n    assign o_saxi_bresp = 0;\n    // AXI-full Slave Port\n\n    reg            r_axi_awv_awr_flag;\n    reg            r_axi_arv_arr_flag;\n    reg    [7:0]   r_axi_awlen_count;\n    reg    [7:0]   r_axi_arlen_count;\n    reg    [1:0]   r_axi_arburst;\n    reg    [1:0]   r_axi_awburst;\n\n    assign axis_wen = r_axi_wready & w_axi_wvalid;\n    assign axis_addr = (r_axi_awv_awr_flag) ? r_axi_awaddr[7:2] : \n                       (r_axi_arv_arr_flag) ? r_axi_araddr[7:2] : 0;    // awready - awv_awr_flag generating\n    always @( posedge clk ) begin\n        if ( rst ) begin\n            r_axi_awready <= 1'b0;\n            r_axi_awv_awr_flag <= 1'b0;\n        end else begin\n            if (~r_axi_awready && w_axi_awvalid && ~r_axi_awv_awr_flag && ~r_axi_arv_arr_flag ) begin\n                r_axi_awready <= 1'b1;\n            r_axi_awv_awr_flag <= 1'b1;\n            end else if ( w_axi_wlast && r_axi_wready ) begin\n                r_axi_awv_awr_flag <= 1'b0;\n            end else begin\n                r_axi_awready <= 1'b0;\n            end\n        end\n    end\n\n    // waddress generation\n    always @( posedge clk ) begin\n        if ( rst ) begin\n            r_axi_awaddr <= 0;\n            r_axi_awlen_count <= 0;\n            r_axi_awburst <= 0;\n            r_axi_awlen <= 0;\n        end else begin\n            if ( ~r_axi_awready && w_axi_awvalid && ~r_axi_awv_awr_flag ) begin\n                r_axi_awaddr <= i_saxi_awaddr;\n                r_axi_awburst <= i_saxi_awburst;\n                r_axi_awlen <= i_saxi_awlen;\n                r_axi_awlen_count <= 0;\n            end else if ( ( r_axi_awlen_count <= r_axi_awlen ) && r_axi_wready && w_axi_wvalid ) begin\n                r_axi_awlen_count <= r_axi_awlen_count + 1;\n\n                case ( r_axi_awburst )\n                    2'b00: begin\n                        r_axi_awaddr <= r_axi_awaddr;\n                    end\n                    2'b01: begin\n                        r_axi_awaddr[7:2] <= r_axi_awaddr[7:2] + 1;\n                        r_axi_awaddr[1:0] <= 2'b00;\n                    end\n                    default: begin\n                        r_axi_awaddr <= r_axi_awaddr[7:2] + 1;\n                    end\n                endcase\n            end\n        end\n    end\n\n    // wready generation\n    always @( posedge clk ) begin\n        if ( rst ) begin\n            r_axi_wready <= 0;\n        end else begin\n            if ( ~r_axi_wready && w_axi_wvalid && r_axi_awv_awr_flag ) begin\n                r_axi_wready <= 1'b1;\n            end else begin\n                r_axi_wready <= 1'b0;\n            end\n        end\n    end\n\n    // write response generation\n    always @( posedge clk ) begin\n        if ( rst ) begin\n            r_axi_bvalid <= 0;\n        end else begin\n            if ( r_axi_awv_awr_flag && r_axi_wready && w_axi_wvalid && ~r_axi_bvalid && w_axi_wlast ) begin\n                r_axi_bvalid <= 1'b1;\n            end else begin\n                if ( w_axi_bready && r_axi_bvalid ) begin\n                    r_axi_bvalid <= 1'b0;\n                end\n            end\n        end\n    end\n\n    // arready - arv_arr_flag generation\n    always @( posedge clk ) begin\n        if ( rst ) begin\n            r_axi_arready <= 1'b0;\n            r_axi_arv_arr_flag <= 1'b0;\n        end else begin\n            if ( ~r_axi_arready && w_axi_arvalid && ~r_axi_awv_awr_flag && ~r_axi_arv_arr_flag ) begin\n                r_axi_arready <= 1'b1;\n                r_axi_arv_arr_flag <= 1'b1;\n            end else if ( r_axi_rvalid && w_axi_rready && r_axi_arlen_count == r_axi_arlen ) begin\n                r_axi_arv_arr_flag <= 1'b0;\n            end else begin\n                r_axi_arready <= 1'b0;\n            end\n        end\n    end\n\n    // raddress generation\n    always @( posedge clk ) begin\n        if ( rst ) begin\n            r_axi_araddr <= 0;\n            r_axi_arlen_count <= 0;\n            r_axi_arburst <= 0;\n            r_axi_arlen <= 0;\n            r_axi_rlast <= 0;\n        end else begin\n            if ( ~r_axi_arready && w_axi_arvalid && ~r_axi_arv_arr_flag ) begin\n                r_axi_araddr <= i_saxi_araddr;\n                r_axi_arburst <= i_saxi_arburst;\n                r_axi_arlen <= i_saxi_arlen;\n                r_axi_arlen_count <= 0;\n                r_axi_rlast <= 0;\n            end else if ( ( r_axi_arlen_count <= r_axi_arlen ) && r_axi_rvalid && w_axi_rready ) begin\n                r_axi_arlen_count <= r_axi_arlen_count + 1;\n                r_axi_rlast <= 0;\n                case ( r_axi_arburst )\n                    2'b00: begin\n                        r_axi_araddr <= r_axi_araddr;\n                    end\n                    2'b01: begin\n                        r_axi_araddr[7:2] <= r_axi_araddr[7:2] + 1;\n                        r_axi_araddr[1:0] <= 2'b00;\n                    end\n                    default: begin\n                        r_axi_araddr <= r_axi_araddr[7:2];\n                    end\n                endcase\n            end else if ( ( r_axi_arlen_count == r_axi_arlen ) && ~r_axi_rlast && r_axi_arv_arr_flag ) begin\n                r_axi_rlast <= 1'b1;\n            end else if ( w_axi_rready ) begin\n                r_axi_rlast <= 1'b0;\n            end\n        end\n    end\n\n    // rvalid generation\n    always @( posedge clk ) begin\n        if ( rst ) begin\n            r_axi_rvalid <= 0;\n        end else begin\n            if ( ~r_axi_wready && w_axi_wvalid && r_axi_awv_awr_flag ) begin\n                r_axi_rvalid <= 1'b1;\n            end else begin\n                r_axi_rvalid <= 1'b0;\n            end\n        end\n    end\n\n    assign w_axi_wdata[0+:8] = i_saxi_wstrb[0] ? i_saxi_wdata[0+:8] : 0;\n    assign w_axi_wdata[8+:8] = i_saxi_wstrb[1] ? i_saxi_wdata[8+:8] : 0;\n    assign w_axi_wdata[16+:8] = i_saxi_wstrb[2] ? i_saxi_wdata[16+:8] : 0;\n    assign w_axi_wdata[24+:8] = i_saxi_wstrb[3] ? i_saxi_wdata[24+:8] : 0;\n\n    always @(*) begin\n        r_axi_rdata <= axis_read;\n    end\n\n    assign axis_write = w_axi_wdata;\n\nendmodule\n";

fn id(name: &str) -> Box<E> {
    let mut w = WireVar::new();
    w.wire(name, 1)
}

fn show(e: &E) -> String {
    decomp_ast(false, e, "", 0)
}

fn three_registers() -> AxiLite {
    let mut axi = AxiLite::new(id("clk"), id("rst"));
    axi.named_reg_set("calc_a");
    axi.named_reg_set("calc_b");
    axi.named_reg_set("output_calc");
    axi
}

#[test]
fn address_width_is_the_least_that_reaches_the_last_byte() {
    let expected = [(1usize, 2), (3, 4), (4, 4), (5, 5), (16, 6), (17, 7)];
    for (count, width) in expected {
        let w = register_address_width(count);
        assert_eq!(w, width);
        let bound = 4 * (count as i64) - 1;
        assert!(2i64.pow(w as u32) >= bound);
        assert!(2i64.pow(w as u32 - 1) < bound);
    }
    assert_eq!(register_address_width(0), 1);
    assert_eq!(register_address_width(1 << 40), 42);
    assert_eq!(width_for(-5), 1);
    assert_eq!(width_for(0), 1);
    assert_eq!(width_for(2), 1);
    assert_eq!(width_for(3), 2);
    assert_eq!(width_for(64), 6);
    assert_eq!(width_for(65), 7);
    assert_eq!(width_for(255), 8);
    assert_eq!(width_for(i128::MAX), 127);
}

#[test]
fn three_named_registers_give_three_read_clauses_and_a_default() {
    let mut axi = three_registers();
    axi.reg_write(id("write_en_cdata"), id("i_Calc")).unwrap();
    assert_eq!(axi.reg_count(), 3);
    assert_eq!(register_address_width(axi.reg_count()), 4);
    let text = print_axi_lite_slave(axi, 0);
    let read = &text[text.find("                case( r_araddr0[3:2] )\n").unwrap()..];
    let read = &read[..read.find("endcase").unwrap()];
    let lines: Vec<&str> = read.lines().skip(1).filter(|l| !l.trim().is_empty()).collect();
    assert_eq!(lines.len(), 4);
    assert_eq!(lines[0], "                    2'h00 : r_rdata0 <= calc_a;");
    assert_eq!(lines[1], "                    2'h01 : r_rdata0 <= calc_b;");
    assert_eq!(lines[2], "                    2'h02 : r_rdata0 <= output_calc;");
    assert_eq!(lines[3], "                    default: r_rdata0 <= 32'hDEAD_DEAD;");
    assert_eq!(text, LITE_THREE);
}

#[test]
fn register_adapter_without_registers() {
    let axi = AxiLite::new(id("CLK"), id("RST"));
    assert_eq!(print_axi(Bus::AxiLite(axi), 3), LITE_NONE);
}

#[test]
fn register_adapter_with_numbered_registers() {
    let mut axi = AxiLite::new(id("c"), id("r"));
    axi.order_reg_set(17);
    assert_eq!(axi.reg_count(), 17);
    assert_eq!(show(&axi.order_reg(0)), "slv_reg0");
    assert_eq!(show(&axi.order_reg(16)), "slv_reg16");
    assert_eq!(show(&axi.named_reg("slv_reg9")), "slv_reg9");
    assert!(matches!(*axi.named_reg("slv_reg17"), E::Null));
    let text = print_axi_lite_slave(axi.clone(), 1);
    assert!(text.contains("                    5'h10 : r_rdata1 <= slv_reg16;\n"));
    assert!(text.contains("                    5'h0A : begin\n"));
    assert_eq!(text, LITE_SEVENTEEN);
    axi.order_reg_set(0);
    axi.order_reg_set(-4);
    assert_eq!(axi.reg_count(), 17);
}

#[test]
fn local_write_goes_to_the_current_register() {
    let mut axi = AxiLite::new(id("clk"), id("rst"));
    assert!(matches!(axi.reg_write(id("en"), _Num(1)), Err(ModelError::NoCurrentRegister)));
    axi.order_reg_set(2);
    axi.reg_write(id("en"), _Num(5)).unwrap();
    let text = print_axi_lite_slave(axi.clone(), 0);
    assert!(text.contains("    // Local write en\n\n            if( en ) begin \n                    slv_reg1 <= 5;\n            end\n        end\n    end\n\n"));
    axi.named_reg_set("extra");
    axi.reg_write(id("go"), id("data")).unwrap();
    axi.order_reg_set(0);
    assert!(matches!(axi.reg_write(id("en"), _Num(1)), Err(ModelError::NoCurrentRegister)));
    let text = print_axi_lite_slave(axi, 0);
    assert!(text.contains("\n            if( en ) begin \n                    slv_reg1 <= 5;\n            end\n\n            if( go ) begin \n                    extra <= data;\n            end\n        end\n"));
}

#[test]
fn burst_adapter_texts() {
    let mut axi = Axi4Slave::new(id("clk"), id("rst"));
    axi.order_reg_set(64);
    assert_eq!(print_axis(axi.clone()), SLAVE_EXTERNAL);
    assert_eq!(format!("    // AXI-full Slave Port\n\n{}", axi.print(6)), SLAVE_EXTERNAL);
    let (r, w, e, a) = axi.mem_if();
    assert_eq!(show(&r), "axis_read");
    assert_eq!(show(&w), "axis_write");
    assert_eq!(show(&e), "axis_wen");
    assert_eq!(show(&a), "axis_addr");
    assert_eq!(print_axi(Bus::AxiSlave(axi.clone()), 9), SLAVE_MEMORY);
    assert_eq!(show(&axi.write()), "axis_write");
    assert_eq!(show(&axi.addr()), "axis_addr");
    assert_eq!(show(&axi.wen()), "axis_wen");
    let mut other = Axi4Slave::new(id("clk"), id("rst"));
    other.order_reg_set(5);
    other.read(id("source"));
    assert_eq!(print_axis(other), SLAVE_READ);
    let _ = (AxiStream, AxiMaster);
}

#[test]
fn register_adapter_example() {
    let mut al = VModule::new("axi_interface");
    let clk = al.input("clk", 0);
    let rst = al.input("rst", 0);
    let mut axi = AxiLite::new(clk, rst);
    axi.named_reg_set("calc_a");
    axi.named_reg_set("calc_b");
    axi.named_reg_set("output_calc");
    let a = al.output("o_A", 32);
    let b = al.output("o_B", 32);
    al.assign(a._e(axi.named_reg("Calc_A")));
    al.assign(b._e(axi.named_reg("Calc_B")));
    let w = al.wire("write_en_cdata", 0);
    al.assign(w._e(_Num(1)));
    let calc = al.input("i_Calc", 32);
    axi.reg_write(w, calc).unwrap();
    al.axi(axi);
    assert_eq!(al.gen(), AXI_EXAMPLE);
}

#[test]
fn burst_adapter_example() {
    let mut al = VModule::new("axi_full_interface");
    let clk = al.input("clk", 0);
    let rst = al.input("rst", 0);
    let mut axi = Axi4Slave::new(clk, rst);
    axi.order_reg_set(64);
    al.axi(axi);
    assert_eq!(al.gen(), AXIFULL_EXAMPLE);
}

#[test]
fn buses_are_numbered_by_their_place() {
    let mut m = VModule::new("many");
    let clk = m.input("clk", 0);
    let rst = m.input("rst", 0);
    let mut first = AxiLite::new(&clk, &rst);
    first.order_reg_set(1);
    let mut second = Axi4Slave::new(&clk, &rst);
    second.order_reg_set(8);
    second.mem_if();
    let mut third = AxiLite::new(&clk, &rst);
    third.named_reg_set("only");
    m.axi(first);
    m.axi(second);
    m.axi(third);
    let text = m.gen();
    assert!(text.contains("    input  [2-1:0] i_s_araddr0 [0-1:0],\n"));
    assert!(text.contains("    input  [5-1:0] i_saxi_araddr [0-1:0],\n"));
    assert!(text.contains("    input  [2-1:0] i_s_araddr2 [0-1:0],\n"));
    assert!(text.contains("    parameter axis_write = 0;\n    parameter axis_read = 0;\n    parameter axis_addr = 0;\n    parameter axis_wen = 0;\n"));
    let zero = text.find("    // AXI Lite Slave Port : Number 0\n").unwrap();
    let full = text.find("    // AXI-full Slave Port\n").unwrap();
    let two = text.find("    // AXI Lite Slave Port : Number 2\n").unwrap();
    assert!(zero < full && full < two);
    assert!(text.contains("    reg [31:0] axi_mem [0:7];\n"));
    assert!(text.contains("        r_axi_rdata <= axi_mem[r_axi_araddr[4:2]];\n"));
}

#[test]
fn burst_adapter_with_supplied_read_data_declares_no_read_wire() {
    let mut m = VModule::new("r");
    let clk = m.input("clk", 0);
    let rst = m.input("rst", 0);
    let mut axi = Axi4Slave::new(&clk, &rst);
    axi.order_reg_set(2);
    axi.read(id("mine"));
    m.axi(axi);
    let text = m.gen();
    assert!(!text.contains("parameter axis_read"));
    assert!(text.contains("    parameter r_axi_rlast = 0;\n    parameter axis_write = 0;\n    parameter axis_addr = 0;\n    parameter axis_wen = 0;\n"));
    assert!(text.contains("        r_axi_rdata <= mine;\n"));
}
